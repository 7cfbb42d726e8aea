//! The collection store and the interaction state machine: a cyclic
//! position inside an ordered collection of decoded images, an
//! independent fullscreen flag, and the title and window-mode requests
//! derived from them.

use vstd::prelude::*;
use vstd::string::StringExecFns;
use crate::image_data::ImageRepresentation;
use crate::text::dec_rep;
use crate::text::dec_string;

verus! {

/// An event the viewer reacts to.
#[derive(Clone, Copy, Debug, PartialEq, Eq)]
pub enum Message {
    Next,
    Previous,
    Fullscreen,
}

/// A request to the windowing collaborator to switch the native window.
#[derive(Clone, Copy, Debug, PartialEq, Eq)]
pub enum WindowMode {
    Fullscreen,
    Windowed,
}

/// A pressed key, as far as the viewer cares about it.
#[derive(Clone, Copy, Debug, PartialEq, Eq)]
pub enum Key {
    ArrowLeft,
    ArrowRight,
    Other,
}

/// The viewer: an ordered collection of decoded images, the position
/// shown at the moment, and whether the window is fullscreen.
#[derive(Clone, Debug)]
pub struct Pugaipadam {
    pub current_image: usize,
    pub image_list: Vec<ImageRepresentation>,
    pub fullscreen: bool,
}

/// The position one step forward of `i` in a collection of `n` items,
/// wrapping at the end; with no items there is nowhere to move.
pub open spec fn next_index(i: nat, n: nat) -> nat {
    if n == 0 {
        i
    } else if i + 1 == n {
        0
    } else {
        i + 1
    }
}

/// The position one step backward of `i`, wrapping at the start.
pub open spec fn prev_index(i: nat, n: nat) -> nat {
    if n == 0 {
        i
    } else if i == 0 {
        (n - 1) as nat
    } else {
        (i - 1) as nat
    }
}

/// One transition of the interaction state machine: the state after the
/// message, and the window-mode request it emits, if any.
pub open spec fn step(s: Pugaipadam, m: Message) -> (Pugaipadam, Option<WindowMode>) {
    match m {
        Message::Next => (
            Pugaipadam {
                current_image: next_index(s.current_image as nat, s.image_list@.len()) as usize,
                image_list: s.image_list,
                fullscreen: s.fullscreen,
            },
            None,
        ),
        Message::Previous => (
            Pugaipadam {
                current_image: prev_index(s.current_image as nat, s.image_list@.len()) as usize,
                image_list: s.image_list,
                fullscreen: s.fullscreen,
            },
            None,
        ),
        Message::Fullscreen => (
            Pugaipadam {
                current_image: s.current_image,
                image_list: s.image_list,
                fullscreen: !s.fullscreen,
            },
            Some(if s.fullscreen {
                WindowMode::Windowed
            } else {
                WindowMode::Fullscreen
            }),
        ),
    }
}

/// What the escape key does: leave fullscreen when in it, nothing else.
pub open spec fn escape_step(s: Pugaipadam) -> (Pugaipadam, Option<WindowMode>) {
    if s.fullscreen {
        step(s, Message::Fullscreen)
    } else {
        (s, None)
    }
}

/// The state after a whole sequence of messages, first message first.
pub open spec fn run_steps(s: Pugaipadam, msgs: Seq<Message>) -> Pugaipadam
    decreases msgs.len(),
{
    if msgs.len() == 0 {
        s
    } else {
        run_steps(step(s, msgs[0]).0, msgs.drop_first())
    }
}

/// The sequence of `k` copies of the message `m`.
pub open spec fn repeat_message(m: Message, k: nat) -> Seq<Message> {
    Seq::new(k, |i: int| m)
}

/// The window title: a fixed placeholder for an empty collection, and
/// otherwise the current image's name with its 1-based position.
pub open spec fn spec_title(s: Pugaipadam) -> Seq<char> {
    if s.image_list@.len() == 0 {
        "Pugaipadam - No images"@
    } else {
        s.image_list@[s.current_image as int].display_name@ + " ("@ + dec_rep(
            s.current_image as int + 1,
        ) + "/"@ + dec_rep(s.image_list@.len() as int) + ")"@
    }
}

impl Pugaipadam {
    /// The invariant every transition keeps: the position indexes into
    /// the collection whenever it is non-empty, and every image held is
    /// well-formed.
    pub open spec fn wf(self) -> bool {
        &&& if self.image_list@.len() == 0 {
            self.current_image == 0
        } else {
            (self.current_image as int) < self.image_list@.len()
        }
        &&& forall|i: int|
            0 <= i < self.image_list@.len() ==> (#[trigger] self.image_list@[i]).wf()
    }

    /// A viewer over `images`, showing the first of them, windowed.
    pub fn new(images: Vec<ImageRepresentation>) -> (r: Pugaipadam)
        requires
            forall|i: int| 0 <= i < images@.len() ==> (#[trigger] images@[i]).wf(),
        ensures
            r.wf(),
            r.image_list == images,
            r.current_image == 0,
            !r.fullscreen,
    {
        Pugaipadam { current_image: 0, image_list: images, fullscreen: false }
    }

    /// The image shown at the moment, or nothing for an empty collection.
    pub fn current(&self) -> (r: Option<&ImageRepresentation>)
        requires
            self.wf(),
        ensures
            match r {
                Some(img) => {
                    &&& self.image_list@.len() > 0
                    &&& *img == self.image_list@[self.current_image as int]
                },
                None => self.image_list@.len() == 0,
            },
    {
        if self.image_list.len() == 0 {
            None
        } else {
            Some(&self.image_list[self.current_image])
        }
    }

    /// Applies one message: navigation moves the position cyclically and
    /// never leaves the collection's range; the fullscreen toggle flips
    /// the flag and emits the matching window-mode request.
    pub fn update(&mut self, message: Message) -> (r: Option<WindowMode>)
        requires
            old(self).wf(),
        ensures
            final(self).wf(),
            (*final(self), r) == step(*old(self), message),
    {
        match message {
            Message::Next => {
                let n = self.image_list.len();
                if n != 0 {
                    if self.current_image + 1 == n {
                        self.current_image = 0;
                    } else {
                        self.current_image = self.current_image + 1;
                    }
                }
                None
            },
            Message::Previous => {
                let n = self.image_list.len();
                if n != 0 {
                    if self.current_image == 0 {
                        self.current_image = n - 1;
                    } else {
                        self.current_image = self.current_image - 1;
                    }
                }
                None
            },
            Message::Fullscreen => {
                self.fullscreen = !self.fullscreen;
                if self.fullscreen {
                    Some(WindowMode::Fullscreen)
                } else {
                    Some(WindowMode::Windowed)
                }
            },
        }
    }

    /// The escape key: equivalent to one fullscreen toggle while
    /// fullscreen, a no-op while windowed.
    pub fn on_escape(&mut self) -> (r: Option<WindowMode>)
        requires
            old(self).wf(),
        ensures
            final(self).wf(),
            (*final(self), r) == escape_step(*old(self)),
    {
        if self.fullscreen {
            self.update(Message::Fullscreen)
        } else {
            None
        }
    }

    /// Whether stepping backward would show a different image: only a
    /// collection of at least two images can be navigated.
    pub fn can_go_back(&self) -> (r: bool)
        ensures
            r == (self.image_list@.len() > 1),
    {
        self.image_list.len() > 1
    }

    /// Whether stepping forward would show a different image.
    pub fn can_go_forward(&self) -> (r: bool)
        ensures
            r == (self.image_list@.len() > 1),
    {
        self.image_list.len() > 1
    }

    /// Whether the window chrome (header bar) is shown: hidden exactly
    /// while fullscreen, as the paired side effect of the toggle.
    pub fn header_visible(&self) -> (r: bool)
        ensures
            r == !self.fullscreen,
    {
        !self.fullscreen
    }

    /// The native window mode matching the fullscreen flag.
    pub fn window_mode(&self) -> (r: WindowMode)
        ensures
            r == (if self.fullscreen {
                WindowMode::Fullscreen
            } else {
                WindowMode::Windowed
            }),
    {
        if self.fullscreen {
            WindowMode::Fullscreen
        } else {
            WindowMode::Windowed
        }
    }

    /// The window title for the state the viewer is in.
    pub fn title(&self) -> (r: String)
        requires
            self.wf(),
        ensures
            r@ == spec_title(*self),
    {
        let n = self.image_list.len();
        if n == 0 {
            String::from_str("Pugaipadam - No images")
        } else {
            let img = &self.image_list[self.current_image];
            let mut t = img.display_name.clone();
            t.append(" (");
            t.append(dec_string(self.current_image + 1).as_str());
            t.append("/");
            t.append(dec_string(n).as_str());
            t.append(")");
            proof {
                assert(t@ =~= spec_title(*self));
            }
            t
        }
    }
}

/// Arrow keys are an alternate source of the navigation messages.
pub fn key_to_message(key: Key) -> (r: Option<Message>)
    ensures
        r == (match key {
            Key::ArrowLeft => Some(Message::Previous),
            Key::ArrowRight => Some(Message::Next),
            Key::Other => None::<Message>,
        }),
{
    match key {
        Key::ArrowLeft => Some(Message::Previous),
        Key::ArrowRight => Some(Message::Next),
        Key::Other => None,
    }
}

impl Default for Pugaipadam {
    /// The empty viewer: no images, windowed.
    fn default() -> (r: Pugaipadam)
        ensures
            r.wf(),
            r.image_list@.len() == 0,
            r.current_image == 0,
            !r.fullscreen,
    {
        Pugaipadam { current_image: 0, image_list: Vec::new(), fullscreen: false }
    }
}

proof fn lemma_step_preserves_wf(s: Pugaipadam, m: Message)
    requires
        s.wf(),
    ensures
        step(s, m).0.wf(),
        step(s, m).0.image_list == s.image_list,
{
}

/// However a well-formed viewer is driven, its collection never changes
/// and its position never leaves the collection's range.
pub proof fn lemma_navigation_stays_in_range(s: Pugaipadam, msgs: Seq<Message>)
    requires
        s.wf(),
    ensures
        run_steps(s, msgs).wf(),
        run_steps(s, msgs).image_list == s.image_list,
        s.image_list@.len() > 0 ==> (run_steps(s, msgs).current_image as int) < s.image_list@.len(),
    decreases msgs.len(),
{
    if msgs.len() > 0 {
        lemma_step_preserves_wf(s, msgs[0]);
        lemma_navigation_stays_in_range(step(s, msgs[0]).0, msgs.drop_first());
    }
}

proof fn lemma_vec_len_bound<T>(v: &Vec<T>)
    ensures
        v@.len() <= usize::MAX,
{
    broadcast use vstd::std_specs::vec::axiom_spec_len;

    assert(vstd::std_specs::vec::spec_vec_len(v) == v@.len());
}

proof fn lemma_run_next_formula(s: Pugaipadam, k: nat)
    requires
        s.wf(),
        s.image_list@.len() > 0,
        k <= s.image_list@.len(),
    ensures
        ({
            let n = s.image_list@.len();
            let i = s.current_image as nat;
            let r = run_steps(s, repeat_message(Message::Next, k));
            &&& r.image_list == s.image_list
            &&& r.fullscreen == s.fullscreen
            &&& r.current_image as nat == (if i + k < n {
                i + k
            } else {
                (i + k - n) as nat
            })
        }),
    decreases k,
{
    lemma_vec_len_bound(&s.image_list);
    if k > 0 {
        let s1 = step(s, Message::Next).0;
        lemma_step_preserves_wf(s, Message::Next);
        assert(repeat_message(Message::Next, k).drop_first() =~= repeat_message(
            Message::Next,
            (k - 1) as nat,
        ));
        lemma_run_next_formula(s1, (k - 1) as nat);
    }
}

proof fn lemma_run_prev_formula(s: Pugaipadam, k: nat)
    requires
        s.wf(),
        s.image_list@.len() > 0,
        k <= s.image_list@.len(),
    ensures
        ({
            let n = s.image_list@.len();
            let i = s.current_image as nat;
            let r = run_steps(s, repeat_message(Message::Previous, k));
            &&& r.image_list == s.image_list
            &&& r.fullscreen == s.fullscreen
            &&& r.current_image as nat == (if k <= i {
                (i - k) as nat
            } else {
                (i + n - k) as nat
            })
        }),
    decreases k,
{
    lemma_vec_len_bound(&s.image_list);
    if k > 0 {
        let s1 = step(s, Message::Previous).0;
        lemma_step_preserves_wf(s, Message::Previous);
        assert(repeat_message(Message::Previous, k).drop_first() =~= repeat_message(
            Message::Previous,
            (k - 1) as nat,
        ));
        lemma_run_prev_formula(s1, (k - 1) as nat);
    }
}

/// Cyclic navigation: sending `Next` exactly as many times as there are
/// images returns the viewer to exactly the state it started in, from
/// any start; the same holds for `Previous`.
pub proof fn lemma_cycle_returns_to_start(s: Pugaipadam)
    requires
        s.wf(),
        s.image_list@.len() > 0,
    ensures
        run_steps(s, repeat_message(Message::Next, s.image_list@.len())) == s,
        run_steps(s, repeat_message(Message::Previous, s.image_list@.len())) == s,
{
    lemma_run_next_formula(s, s.image_list@.len());
    lemma_run_prev_formula(s, s.image_list@.len());
}

/// Toggling fullscreen twice returns the viewer to exactly its original
/// state, and issues two window-mode requests that pair up: one entering
/// and one leaving fullscreen, in the order fixed by the starting state.
pub proof fn lemma_toggle_fullscreen_twice(s: Pugaipadam)
    ensures
        ({
            let (s1, r1) = step(s, Message::Fullscreen);
            let (s2, r2) = step(s1, Message::Fullscreen);
            &&& s2 == s
            &&& r1 == Some(
                if s.fullscreen {
                    WindowMode::Windowed
                } else {
                    WindowMode::Fullscreen
                },
            )
            &&& r2 == Some(
                if s.fullscreen {
                    WindowMode::Fullscreen
                } else {
                    WindowMode::Windowed
                },
            )
        }),
{
}

/// Escape while fullscreen is one fullscreen toggle; escape while
/// windowed changes no state and requests no window-mode change.
pub proof fn lemma_escape_is_conditional_toggle(s: Pugaipadam)
    ensures
        s.fullscreen ==> escape_step(s) == step(s, Message::Fullscreen),
        !s.fullscreen ==> escape_step(s) == (s, None::<WindowMode>),
{
}

} // verus!
