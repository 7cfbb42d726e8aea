//! The path discoverer: expanding classified command-line arguments into
//! the ordered, filtered list of image paths to decode.
//!
//! The caller resolves each raw argument against the filesystem and hands
//! the outcome over as an `Argument`; everything after that point is
//! verified. Which extensions name a raster format the `image` crate
//! decides, behind a trusted wrapper.

use vstd::prelude::*;
use vstd::string::StringExecFns;
use crate::text::extension_of;
use crate::text::extension_spec;
use crate::text::file_name_of;
use crate::text::file_name_spec;

verus! {

/// Whether an extension names a raster image format that the decoder
/// recognises. A function of the extension alone.
pub uninterp spec fn is_raster_ext(ext: Seq<char>) -> bool;

/// Relies on `image::ImageFormat::from_extension`: a fixed,
/// case-insensitive table from extensions to raster formats.
#[verifier::external_body]
fn raster_format_known(ext: &str) -> (r: bool)
    ensures
        r == is_raster_ext(ext@),
{
    match image::ImageFormat::from_extension(ext) {
        Some(_) => true,
        None => false,
    }
}

/// One command-line argument, resolved against the filesystem by the
/// caller before discovery runs.
#[derive(Clone, Debug)]
pub enum Argument {
    /// An existing file at this path.
    File(String),
    /// An existing, readable directory: its immediate children's paths,
    /// in enumeration order.
    Directory(Vec<String>),
    /// An existing directory whose entries could not be read.
    UnreadableDirectory(String),
    /// Neither an existing file nor an existing directory.
    Missing(String),
}

/// Whether a directory child is kept: its file name must carry an
/// extension naming a known raster format.
pub open spec fn child_kept(path: Seq<char>) -> bool {
    match extension_spec(file_name_spec(path)) {
        Some(e) => is_raster_ext(e),
        None => false,
    }
}

/// Whether a file argument is kept: as a directory child, except that
/// the vector format `svg` is accepted too.
pub open spec fn file_kept(path: Seq<char>) -> bool {
    match extension_spec(file_name_spec(path)) {
        Some(e) => is_raster_ext(e) || e == "svg"@,
        None => false,
    }
}

/// The children of a directory that discovery keeps, in their order.
pub open spec fn kept_children(children: Seq<Seq<char>>) -> Seq<Seq<char>>
    decreases children.len(),
{
    if children.len() == 0 {
        Seq::empty()
    } else {
        let rest = kept_children(children.drop_last());
        if child_kept(children.last()) {
            rest.push(children.last())
        } else {
            rest
        }
    }
}

/// What one argument contributes to the discovered list: a kept file
/// contributes itself, a readable directory its kept children, and
/// everything else nothing.
pub open spec fn contribution(a: Argument) -> Seq<Seq<char>> {
    match a {
        Argument::File(path) => if file_kept(path@) {
            seq![path@]
        } else {
            Seq::empty()
        },
        Argument::Directory(children) => kept_children(children.deep_view()),
        Argument::UnreadableDirectory(_) => Seq::empty(),
        Argument::Missing(_) => Seq::empty(),
    }
}

/// The discovered image paths: each argument's contribution, in the
/// arguments' original order.
pub open spec fn discovered(args: Seq<Argument>) -> Seq<Seq<char>>
    decreases args.len(),
{
    if args.len() == 0 {
        Seq::empty()
    } else {
        discovered(args.drop_last()) + contribution(args.last())
    }
}

/// The file arguments that were dropped for their extension, to report.
pub open spec fn rejected_files(args: Seq<Argument>) -> Seq<Seq<char>>
    decreases args.len(),
{
    if args.len() == 0 {
        Seq::empty()
    } else {
        let rest = rejected_files(args.drop_last());
        match args.last() {
            Argument::File(path) => if !file_kept(path@) {
                rest.push(path@)
            } else {
                rest
            },
            _ => rest,
        }
    }
}

/// The directory arguments that could not be read, to report.
pub open spec fn unreadable_dirs(args: Seq<Argument>) -> Seq<Seq<char>>
    decreases args.len(),
{
    if args.len() == 0 {
        Seq::empty()
    } else {
        let rest = unreadable_dirs(args.drop_last());
        match args.last() {
            Argument::UnreadableDirectory(path) => rest.push(path@),
            _ => rest,
        }
    }
}

/// The outcome of discovery: what to decode and what to report. Nothing
/// here is fatal; an argument that yields nothing simply contributes no
/// entries.
#[derive(Clone, Debug)]
pub struct DiscoveryReport {
    /// The image paths to decode, in order.
    pub images: Vec<String>,
    /// File arguments whose extension no decoder takes.
    pub rejected: Vec<String>,
    /// Directory arguments whose entries could not be read.
    pub unreadable: Vec<String>,
}

fn child_arg_kept(path: &String) -> (r: bool)
    ensures
        r == child_kept(path@),
{
    let name = file_name_of(path.as_str());
    match extension_of(name.as_str()) {
        Some(e) => raster_format_known(e.as_str()),
        None => false,
    }
}

fn file_arg_kept(path: &String) -> (r: bool)
    ensures
        r == file_kept(path@),
{
    let name = file_name_of(path.as_str());
    match extension_of(name.as_str()) {
        Some(e) => {
            if raster_format_known(e.as_str()) {
                true
            } else {
                e == String::from_str("svg")
            }
        },
        None => false,
    }
}

fn kept_of_children(children: &Vec<String>) -> (r: Vec<String>)
    ensures
        r.deep_view() == kept_children(children.deep_view()),
{
    let mut kept: Vec<String> = Vec::new();
    let m = children.len();
    let mut j: usize = 0;
    while j < m
        invariant
            j <= m,
            m == children@.len(),
            kept.deep_view() == kept_children(children.deep_view().take(j as int)),
        decreases m - j,
    {
        let child = &children[j];
        if child_arg_kept(child) {
            kept.push(child.clone());
        }
        j = j + 1;
        proof {
            let prefix = children.deep_view().take(j as int);
            assert(prefix.drop_last() =~= children.deep_view().take(j - 1));
            assert(kept.deep_view() =~= kept_children(prefix));
        }
    }
    proof {
        assert(children.deep_view().take(m as int) =~= children.deep_view());
    }
    kept
}

/// Expands the classified arguments into the ordered list of image paths,
/// together with what is to be reported: for each argument in original
/// order, a kept file contributes itself, a readable directory its
/// children with raster extensions, and anything else zero entries.
pub fn discover(args: &Vec<Argument>) -> (r: DiscoveryReport)
    ensures
        r.images.deep_view() == discovered(args@),
        r.rejected.deep_view() == rejected_files(args@),
        r.unreadable.deep_view() == unreadable_dirs(args@),
{
    let mut images: Vec<String> = Vec::new();
    let mut rejected: Vec<String> = Vec::new();
    let mut unreadable: Vec<String> = Vec::new();
    let n = args.len();
    let mut idx: usize = 0;
    while idx < n
        invariant
            idx <= n,
            n == args@.len(),
            images.deep_view() == discovered(args@.take(idx as int)),
            rejected.deep_view() == rejected_files(args@.take(idx as int)),
            unreadable.deep_view() == unreadable_dirs(args@.take(idx as int)),
        decreases n - idx,
    {
        match &args[idx] {
            Argument::File(path) => {
                if file_arg_kept(path) {
                    images.push(path.clone());
                } else {
                    rejected.push(path.clone());
                }
            },
            Argument::Directory(children) => {
                let mut kept = kept_of_children(children);
                images.append(&mut kept);
            },
            Argument::UnreadableDirectory(path) => {
                unreadable.push(path.clone());
            },
            Argument::Missing(_) => {},
        }
        idx = idx + 1;
        proof {
            let prefix = args@.take(idx as int);
            assert(prefix.drop_last() =~= args@.take(idx - 1));
            assert(prefix.last() == args@[idx - 1]);
            assert(images.deep_view() =~= discovered(prefix));
            assert(rejected.deep_view() =~= rejected_files(prefix));
            assert(unreadable.deep_view() =~= unreadable_dirs(prefix));
        }
    }
    proof {
        assert(args@.take(n as int) =~= args@);
    }
    DiscoveryReport { images, rejected, unreadable }
}

} // verus!
