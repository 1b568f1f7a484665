//! Which files of a walk are converted, copied verbatim or left alone.

use vstd::prelude::*;

use crate::paths::{extension_of, opt_view, path_extension};

verus! {

/// What is done with one file found by the walk.
#[derive(Debug, Clone, Copy, PartialEq, Eq, Structural)]
pub enum Actions {
    /// Decode the image and encode it to WebP.
    Convert,
    /// The file is WebP already: copy its bytes into the output directory.
    Copy,
    /// Not an image this tool handles: skipped with a warning.
    Nothing,
}

/// The code of `c` after ASCII lower-casing (other characters are kept).
pub open spec fn ascii_lower(c: char) -> int {
    if 'A' <= c && c <= 'Z' {
        c as int + 32
    } else {
        c as int
    }
}

/// `s`, lower-cased in ASCII, is exactly `lower`.
pub open spec fn same_ignoring_ascii_case(s: Seq<char>, lower: Seq<char>) -> bool {
    &&& s.len() == lower.len()
    &&& forall|i: int| 0 <= i < s.len() ==> ascii_lower(#[trigger] s[i]) == lower[i] as int
}

/// An extension of an image format that is decoded and re-encoded.
pub open spec fn is_convertible_extension(e: Seq<char>) -> bool {
    ||| same_ignoring_ascii_case(e, seq!['j', 'p', 'g'])
    ||| same_ignoring_ascii_case(e, seq!['j', 'p', 'e', 'g'])
    ||| same_ignoring_ascii_case(e, seq!['p', 'n', 'g'])
    ||| same_ignoring_ascii_case(e, seq!['t', 'i', 'f', 'f'])
    ||| same_ignoring_ascii_case(e, seq!['t', 'i', 'f'])
    ||| same_ignoring_ascii_case(e, seq!['b', 'm', 'p'])
    ||| same_ignoring_ascii_case(e, seq!['a', 'v', 'i', 'f'])
    ||| same_ignoring_ascii_case(e, seq!['g', 'i', 'f'])
    ||| same_ignoring_ascii_case(e, seq!['j', 'f', 'i', 'f'])
}

/// The extension of a WebP file, which is copied as it is.
pub open spec fn is_webp_extension(e: Seq<char>) -> bool {
    same_ignoring_ascii_case(e, seq!['w', 'e', 'b', 'p'])
}

/// The action for a file with extension `ext` (`None`: the name has none).
pub open spec fn action_for_extension(ext: Option<Seq<char>>) -> Actions {
    match ext {
        Some(e) => if is_convertible_extension(e) {
            Actions::Convert
        } else if is_webp_extension(e) {
            Actions::Copy
        } else {
            Actions::Nothing
        },
        None => Actions::Nothing,
    }
}

/// Compares `s` with the lower-case word `lower`, ignoring ASCII case in `s`.
fn equals_ignoring_ascii_case(s: &str, lower: &str) -> (r: bool)
    ensures
        r == same_ignoring_ascii_case(s@, lower@),
{
    let n = s.unicode_len();
    let m = lower.unicode_len();
    if n != m {
        return false;
    }
    let mut i: usize = 0;
    while i < n
        invariant
            n == s@.len(),
            m == lower@.len(),
            n == m,
            i <= n,
            forall|j: int| 0 <= j < i ==> ascii_lower(#[trigger] s@[j]) == lower@[j] as int,
        decreases n - i,
    {
        let c = s.get_char(i);
        let d = lower.get_char(i);
        let lc: u32 = if 'A' <= c && c <= 'Z' {
            c as u32 + 32
        } else {
            c as u32
        };
        if lc != d as u32 {
            return false;
        }
        i = i + 1;
    }
    true
}

/// Classifies a file by its extension, without regard to ASCII case.
pub fn classify_extension(ext: Option<&str>) -> (r: Actions)
    ensures
        r == action_for_extension(
            match ext {
                Some(e) => Some(e@),
                None => None,
            },
        ),
{
    proof {
        reveal_strlit("jpg");
        reveal_strlit("jpeg");
        reveal_strlit("png");
        reveal_strlit("tiff");
        reveal_strlit("tif");
        reveal_strlit("bmp");
        reveal_strlit("avif");
        reveal_strlit("gif");
        reveal_strlit("jfif");
        reveal_strlit("webp");
    }
    match ext {
        None => Actions::Nothing,
        Some(e) => {
            if equals_ignoring_ascii_case(e, "jpg") || equals_ignoring_ascii_case(e, "jpeg")
                || equals_ignoring_ascii_case(e, "png") || equals_ignoring_ascii_case(e, "tiff")
                || equals_ignoring_ascii_case(e, "tif") || equals_ignoring_ascii_case(e, "bmp")
                || equals_ignoring_ascii_case(e, "avif") || equals_ignoring_ascii_case(e, "gif")
                || equals_ignoring_ascii_case(e, "jfif") {
                Actions::Convert
            } else if equals_ignoring_ascii_case(e, "webp") {
                Actions::Copy
            } else {
                Actions::Nothing
            }
        },
    }
}

/// `s` with every double quote removed.
pub open spec fn without_quotes(s: Seq<char>) -> Seq<char>
    decreases s.len(),
{
    if s.len() == 0 {
        s
    } else {
        let rest = without_quotes(s.drop_last());
        if s.last() == '"' {
            rest
        } else {
            rest.push(s.last())
        }
    }
}

/// Removes the double quotes that a path may carry from the command line.
pub fn remove_quotes(s: &str) -> (r: String)
    ensures
        r@ == without_quotes(s@),
{
    let n = s.unicode_len();
    let mut out = String::new();
    let mut i: usize = 0;
    while i < n
        invariant
            n == s@.len(),
            i <= n,
            out@ == without_quotes(s@.subrange(0, i as int)),
        decreases n - i,
    {
        let c = s.get_char(i);
        assert(s@.subrange(0, i + 1).drop_last() =~= s@.subrange(0, i as int));
        if c != '"' {
            let piece = s.substring_char(i, i + 1);
            assert(piece@ =~= seq![c]);
            out.append(piece);
        }
        i = i + 1;
    }
    assert(s@.subrange(0, n as int) =~= s@);
    out
}

/// Decides what is done with the file at `path`, by its extension.
pub fn which_action(path: &str) -> (r: Actions)
    ensures
        r == action_for_extension(extension_of(without_quotes(path@))),
{
    let cleaned = remove_quotes(path);
    let ext = path_extension(cleaned.as_str());
    match ext {
        Some(e) => classify_extension(Some(e.as_str())),
        None => classify_extension(None),
    }
}

} // verus!
