//! Path strings: where a source file's output goes, and how a path typed by
//! the user is rewritten for this platform's shell conventions.
//!
//! The component rules of paths are std's (`std::path::Path`); the library
//! names what each std call returns and builds its own rules on those names.

use vstd::prelude::*;

verus! {

/// The directory, beside each source file, that receives its output.
pub const OUTPUT_DIR_NAME: &'static str = "webp_converter_output";

/// What `Path::parent` returns for the path `p`.
pub uninterp spec fn parent_of(p: Seq<char>) -> Option<Seq<char>>;

/// What `Path::file_name` returns for the path `p`.
pub uninterp spec fn file_name_of(p: Seq<char>) -> Option<Seq<char>>;

/// What `Path::extension` returns for the path `p`.
pub uninterp spec fn extension_of(p: Seq<char>) -> Option<Seq<char>>;

/// What `Path::join` returns for `base` and `part`.
pub uninterp spec fn join_of(base: Seq<char>, part: Seq<char>) -> Seq<char>;

/// What `Path::with_extension` returns for `p` and `ext`.
pub uninterp spec fn with_extension_of(p: Seq<char>, ext: Seq<char>) -> Seq<char>;

/// The view of an optional string.
pub open spec fn opt_view(o: Option<String>) -> Option<Seq<char>> {
    match o {
        Some(s) => Some(s@),
        None => None,
    }
}

/// Relies on `Path::parent`: the path without its last component, if any.
#[verifier::external_body]
fn path_parent(p: &str) -> (r: Option<String>)
    ensures
        opt_view(r) == parent_of(p@),
{
    std::path::Path::new(p).parent().map(|q| q.to_string_lossy().into_owned())
}

/// Relies on `Path::file_name`: the final component, if it is a name.
#[verifier::external_body]
fn path_file_name(p: &str) -> (r: Option<String>)
    ensures
        opt_view(r) == file_name_of(p@),
{
    std::path::Path::new(p).file_name().map(|n| n.to_string_lossy().into_owned())
}

/// Relies on `Path::extension`: what follows the last `.` of the file name.
#[verifier::external_body]
pub(crate) fn path_extension(p: &str) -> (r: Option<String>)
    ensures
        opt_view(r) == extension_of(p@),
{
    std::path::Path::new(p).extension().map(|e| e.to_string_lossy().into_owned())
}

/// Relies on `Path::join`: `part` appended to `base` as a new component.
#[verifier::external_body]
fn path_join(base: &str, part: &str) -> (r: String)
    ensures
        r@ == join_of(base@, part@),
{
    std::path::Path::new(base).join(part).to_string_lossy().into_owned()
}

/// Relies on `Path::with_extension`: `p` with its extension replaced by `ext`.
/// It panics when `ext` holds a path separator.
#[verifier::external_body]
fn path_with_extension(p: &str, ext: &str) -> (r: String)
    requires
        forall|i: int| 0 <= i < ext@.len() ==> ext@[i] != '/' && ext@[i] != '\\',
    ensures
        r@ == with_extension_of(p@, ext@),
{
    std::path::Path::new(p).with_extension(ext).to_string_lossy().into_owned()
}

/// The output directory for a source file: `webp_converter_output` inside
/// the source's parent directory (the current directory where it has none).
pub open spec fn output_dir_of(source: Seq<char>) -> Seq<char> {
    let parent = match parent_of(source) {
        Some(d) => d,
        None => Seq::<char>::empty(),
    };
    join_of(parent, OUTPUT_DIR_NAME@)
}

/// The file written for a converted source: its name with the extension
/// `webp`, inside its output directory. Without a file name there is none.
pub open spec fn destination_of(source: Seq<char>) -> Option<Seq<char>> {
    match file_name_of(with_extension_of(source, seq!['w', 'e', 'b', 'p'])) {
        Some(name) => Some(join_of(output_dir_of(source), name)),
        None => match file_name_of(source) {
            Some(name) => Some(join_of(output_dir_of(source), name)),
            None => None,
        },
    }
}

/// The file written for a copied source: the same name, in its output
/// directory.
pub open spec fn copy_destination_of(source: Seq<char>) -> Option<Seq<char>> {
    match file_name_of(source) {
        Some(name) => Some(join_of(output_dir_of(source), name)),
        None => None,
    }
}

/// The output directory for a source path.
pub fn output_dir_for(source: &str) -> (r: String)
    ensures
        r@ == output_dir_of(source@),
{
    proof {
        reveal_strlit("");
    }
    match path_parent(source) {
        Some(parent) => {
            let r = path_join(parent.as_str(), OUTPUT_DIR_NAME);
            assert(parent_of(source@) == Some(parent@));
            r
        },
        None => {
            let r = path_join("", OUTPUT_DIR_NAME);
            assert(""@ =~= Seq::<char>::empty());
            r
        },
    }
}

/// Two sources with the same parent directory share one output directory:
/// resolving it again yields the same path.
pub proof fn lemma_output_dir_shared(a: Seq<char>, b: Seq<char>)
    requires
        parent_of(a) == parent_of(b),
    ensures
        output_dir_of(a) == output_dir_of(b),
{
}

/// The output directory of the direct children of a directory `root`.
pub open spec fn run_output_dir_of(root: Seq<char>) -> Seq<char> {
    join_of(root, OUTPUT_DIR_NAME@)
}

/// The output directory that is cleaned after a run over the directory `root`.
pub fn run_output_dir(root: &str) -> (r: String)
    ensures
        r@ == run_output_dir_of(root@),
{
    path_join(root, OUTPUT_DIR_NAME)
}

/// Where a converted source is written, or `None` when the source path has
/// no file name.
pub fn destination_for(source: &str) -> (r: Option<String>)
    ensures
        opt_view(r) == destination_of(source@),
{
    proof {
        reveal_strlit("webp");
        assert("webp"@ =~= seq!['w', 'e', 'b', 'p']);
    }
    let dir = output_dir_for(source);
    let renamed = path_with_extension(source, "webp");
    match path_file_name(renamed.as_str()) {
        Some(name) => Some(path_join(dir.as_str(), name.as_str())),
        None => match path_file_name(source) {
            Some(name) => Some(path_join(dir.as_str(), name.as_str())),
            None => None,
        },
    }
}

/// Where a copied source is written, or `None` when the source path has no
/// file name.
pub fn copy_destination_for(source: &str) -> (r: Option<String>)
    ensures
        opt_view(r) == copy_destination_of(source@),
{
    let dir = output_dir_for(source);
    match path_file_name(source) {
        Some(name) => Some(path_join(dir.as_str(), name.as_str())),
        None => None,
    }
}

/// A path as a Unix shell reads it: each backslash becomes a slash and each
/// space is escaped with a backslash.
pub open spec fn shell_path(s: Seq<char>) -> Seq<char>
    decreases s.len(),
{
    if s.len() == 0 {
        s
    } else {
        let rest = shell_path(s.drop_last());
        let c = s.last();
        if c == '\\' {
            rest.push('/')
        } else if c == ' ' {
            rest + seq!['\\', ' ']
        } else {
            rest.push(c)
        }
    }
}

/// Rewrites a user-supplied path with Unix separators and escaped spaces.
pub fn process_path_for_os(path: &str) -> (r: String)
    ensures
        r@ == shell_path(path@),
{
    let n = path.unicode_len();
    let mut out = String::new();
    let mut i: usize = 0;
    while i < n
        invariant
            n == path@.len(),
            i <= n,
            out@ == shell_path(path@.subrange(0, i as int)),
        decreases n - i,
    {
        let c = path.get_char(i);
        assert(path@.subrange(0, i + 1).drop_last() =~= path@.subrange(0, i as int));
        if c == '\\' {
            assert("/"@ =~= seq!['/']) by {
                reveal_strlit("/");
            }
            out.append("/");
        } else if c == ' ' {
            assert("\\ "@ =~= seq!['\\', ' ']) by {
                reveal_strlit("\\ ");
            }
            out.append("\\ ");
        } else {
            let piece = path.substring_char(i, i + 1);
            assert(piece@ =~= seq![c]);
            out.append(piece);
        }
        i = i + 1;
    }
    assert(path@.subrange(0, n as int) =~= path@);
    out
}

/// A path with Windows separators: each slash becomes a backslash.
pub open spec fn windows_path(s: Seq<char>) -> Seq<char> {
    s.map_values(|c: char| if c == '/' { '\\' } else { c })
}

/// Rewrites a user-supplied path with Windows separators.
pub fn process_path_for_windows(path: &str) -> (r: String)
    ensures
        r@ == windows_path(path@),
{
    let n = path.unicode_len();
    let mut out = String::new();
    let mut i: usize = 0;
    while i < n
        invariant
            n == path@.len(),
            i <= n,
            out@ == windows_path(path@.subrange(0, i as int)),
        decreases n - i,
    {
        let c = path.get_char(i);
        assert(windows_path(path@.subrange(0, i + 1)) =~= windows_path(path@.subrange(0, i as int)).push(
            if c == '/' { '\\' } else { c },
        ));
        if c == '/' {
            assert("\\"@ =~= seq!['\\']) by {
                reveal_strlit("\\");
            }
            out.append("\\");
        } else {
            let piece = path.substring_char(i, i + 1);
            assert(piece@ =~= seq![c]);
            out.append(piece);
        }
        i = i + 1;
    }
    assert(path@.subrange(0, n as int) =~= path@);
    out
}

} // verus!
