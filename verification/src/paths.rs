//! Path handling: deriving the output path of a thumbnail, extracting a
//! path's extension, and the admission rules deciding which paths may join
//! the pending list and which may serve as the watermark.
use vstd::prelude::*;

verus! {

/// Derive the output path for one source path: the suffix is appended
/// after the whole file name, original extension included, so
/// `photo.jpg` becomes `photo.jpg-thumb.jpg`. Pure and total: it holds
/// for any path, with or without an extension.
pub fn thumb_output_path(path: &str) -> (r: String)
    ensures
        r@ == path@ + "-thumb.jpg"@,
{
    let mut out = path.to_owned();
    out.append("-thumb.jpg");
    out
}

/// Index of the last occurrence of `c` in `s`, or -1 when `c` does not
/// occur at all.
pub open spec fn last_index_of(s: Seq<char>, c: char) -> int
    decreases s.len(),
{
    if s.len() == 0 {
        -1
    } else if s[s.len() - 1] == c {
        s.len() - 1
    } else {
        last_index_of(s.drop_last(), c)
    }
}

/// `last_index_of` is pinned down by its two defining properties: the
/// character stands at the index, and nowhere after it.
proof fn lemma_last_index_of_char(s: Seq<char>, c: char, i: int)
    requires
        -1 <= i < s.len(),
        i >= 0 ==> s[i] == c,
        forall|j: int| i < j < s.len() ==> s[j] != c,
    ensures
        last_index_of(s, c) == i,
    decreases s.len(),
{
    if s.len() == 0 {
    } else if s[s.len() - 1] == c {
        assert(i == s.len() - 1);
    } else {
        assert(i < s.len() - 1);
        assert(forall|j: int| i < j < s.drop_last().len() ==> s.drop_last()[j] != c);
        lemma_last_index_of_char(s.drop_last(), c, i);
    }
}

/// The path with its trailing separators removed, as the standard library
/// ignores them when naming the last component.
pub open spec fn strip_trailing_slashes(p: Seq<char>) -> Seq<char>
    decreases p.len(),
{
    if p.len() > 0 && p[p.len() - 1] == '/' {
        strip_trailing_slashes(p.drop_last())
    } else {
        p
    }
}

/// The file-name portion of a path: what follows the last separator once
/// trailing separators are dropped; empty for a root or empty path.
pub open spec fn file_name_of(p: Seq<char>) -> Seq<char> {
    let q = strip_trailing_slashes(p);
    q.subrange(last_index_of(q, '/') + 1, q.len() as int)
}

/// The current-directory and parent-directory names, which have neither a
/// file name nor an extension.
pub open spec fn is_dot_or_dotdot(name: Seq<char>) -> bool {
    ||| (name.len() == 1 && name[0] == '.')
    ||| (name.len() == 2 && name[0] == '.' && name[1] == '.')
}

/// The extension of a path: the portion of the file name after its last
/// dot. A name without a dot, a name whose only dot leads it, and the
/// dot-only names have none.
pub open spec fn extension_of(p: Seq<char>) -> Option<Seq<char>> {
    let name = file_name_of(p);
    if is_dot_or_dotdot(name) {
        Option::None
    } else {
        let d = last_index_of(name, '.');
        if d <= 0 {
            Option::None
        } else {
            Option::Some(name.subrange(d + 1, name.len() as int))
        }
    }
}

/// Extract the extension of a path, as `extension_of` describes it.
pub fn extension(path: &str) -> (r: Option<String>)
    ensures
        match (r, extension_of(path@)) {
            (Option::Some(e), Option::Some(se)) => e@ == se,
            (Option::None, Option::None) => true,
            _ => false,
        },
{
    let ghost whole: Seq<char> = path@;
    let n = path.unicode_len();
    proof {
        assert(whole.subrange(0, n as int) =~= whole);
    }
    let mut end: usize = n;
    while end > 0 && path.get_char(end - 1) == '/'
        invariant
            end <= n,
            n == whole.len(),
            whole == path@,
            strip_trailing_slashes(whole) == strip_trailing_slashes(
                whole.subrange(0, end as int),
            ),
        decreases end,
    {
        proof {
            let cur = whole.subrange(0, end as int);
            assert(cur[end - 1] == '/');
            assert(cur.drop_last() =~= whole.subrange(0, end - 1));
        }
        end = end - 1;
    }
    proof {
        let q = whole.subrange(0, end as int);
        assert(strip_trailing_slashes(q) == q);
    }
    let ghost q: Seq<char> = whole.subrange(0, end as int);
    let mut fstart: usize = end;
    while fstart > 0 && path.get_char(fstart - 1) != '/'
        invariant
            fstart <= end <= n,
            n == whole.len(),
            whole == path@,
            forall|j: int| fstart <= j < end ==> whole[j] != '/',
        decreases fstart,
    {
        fstart = fstart - 1;
    }
    proof {
        if fstart > 0 {
            lemma_last_index_of_char(q, '/', fstart - 1);
        } else {
            lemma_last_index_of_char(q, '/', -1);
        }
        assert(file_name_of(whole) =~= whole.subrange(fstart as int, end as int));
    }
    let ghost name: Seq<char> = whole.subrange(fstart as int, end as int);
    // The dot-only names `.` and `..` have no extension.
    if end - fstart == 1 && path.get_char(fstart) == '.' {
        return Option::None;
    }
    if end - fstart == 2 && path.get_char(fstart) == '.' && path.get_char(fstart + 1) == '.' {
        return Option::None;
    }
    let mut d: usize = end;
    while d > fstart && path.get_char(d - 1) != '.'
        invariant
            fstart <= d <= end <= n,
            n == whole.len(),
            whole == path@,
            forall|j: int| d <= j < end ==> whole[j] != '.',
        decreases d,
    {
        d = d - 1;
    }
    proof {
        if d > fstart {
            lemma_last_index_of_char(name, '.', d - 1 - fstart);
        } else {
            lemma_last_index_of_char(name, '.', -1);
        }
    }
    if d <= fstart + 1 {
        Option::None
    } else {
        let ext = path.substring_char(d, end);
        proof {
            assert(ext@ =~= name.subrange(
                last_index_of(name, '.') + 1,
                name.len() as int,
            ));
        }
        Option::Some(ext.to_owned())
    }
}

/// Codepoint of a character with an ASCII capital folded to its small
/// letter; any other character is left as it stands.
pub open spec fn lower_code(c: char) -> u32 {
    if 65 <= c as u32 <= 90 {
        (c as u32 + 32) as u32
    } else {
        c as u32
    }
}

/// Two character sequences are equal once ASCII capitals are folded.
pub open spec fn eq_ignore_ascii_case(a: Seq<char>, b: Seq<char>) -> bool {
    a.len() == b.len() && (forall|i: int| 0 <= i < a.len() ==> lower_code(a[i]) == lower_code(b[i]))
}

/// Compare two strings disregarding ASCII case.
fn eq_nocase(a: &str, b: &str) -> (r: bool)
    ensures
        r == eq_ignore_ascii_case(a@, b@),
{
    let na = a.unicode_len();
    let nb = b.unicode_len();
    if na != nb {
        return false;
    }
    let mut i: usize = 0;
    while i < na
        invariant
            i <= na,
            na == a@.len(),
            na == b@.len(),
            forall|j: int| 0 <= j < i ==> lower_code(a@[j]) == lower_code(b@[j]),
        decreases na - i,
    {
        let ca = a.get_char(i) as u32;
        let cb = b.get_char(i) as u32;
        let la = if 65 <= ca && ca <= 90 {
            ca + 32
        } else {
            ca
        };
        let lb = if 65 <= cb && cb <= 90 {
            cb + 32
        } else {
            cb
        };
        if la != lb {
            return false;
        }
        i = i + 1;
    }
    true
}

/// The extensions admitted into the pending list, compared disregarding
/// ASCII case.
pub open spec fn admitted_source_ext(e: Seq<char>) -> bool {
    ||| eq_ignore_ascii_case(e, "jpg"@)
    ||| eq_ignore_ascii_case(e, "jpeg"@)
    ||| eq_ignore_ascii_case(e, "png"@)
    ||| eq_ignore_ascii_case(e, "webp"@)
    ||| eq_ignore_ascii_case(e, "bmp"@)
}

/// A path may join the pending list only if its lowercased extension is
/// one of the admitted raster formats.
pub open spec fn admits_source(path: Seq<char>) -> bool {
    match extension_of(path) {
        Option::Some(e) => admitted_source_ext(e),
        Option::None => false,
    }
}

/// A path may serve as the watermark only if its extension is exactly
/// `png`.
pub open spec fn admits_watermark(path: Seq<char>) -> bool {
    extension_of(path) == Option::Some("png"@)
}

/// Decide whether a path is admitted into the pending list.
pub fn source_admitted(path: &str) -> (r: bool)
    ensures
        r == admits_source(path@),
{
    match extension(path) {
        Option::None => false,
        Option::Some(e) => {
            let ext = e.as_str();
            eq_nocase(ext, "jpg") || eq_nocase(ext, "jpeg") || eq_nocase(ext, "png") || eq_nocase(
                ext,
                "webp",
            ) || eq_nocase(ext, "bmp")
        },
    }
}

/// Decide whether a path is accepted as the watermark.
pub fn watermark_admitted(path: &str) -> (r: bool)
    ensures
        r == admits_watermark(path@),
{
    match extension(path) {
        Option::None => false,
        Option::Some(e) => e == String::from_str("png"),
    }
}

} // verus!
