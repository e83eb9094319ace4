//! Path naming: turning a template file's path under a scan root into its
//! canonical identifier, and mirroring a content path into the output tree.
//!
//! Paths are handled as separator-normalized text; the surrounding program
//! turns the operating system's paths into text before they reach here.
use vstd::prelude::*;

use crate::errors::BuildError;

verus! {

/// Appends one character. Relies on String::push of std, which appends the
/// given char to the end of the string.
pub assume_specification[ String::push ](s: &mut String, c: char)
    ensures
        final(s)@ == old(s)@.push(c),
;

/// The template-file marker, `.hbs`, as the namer removes it.
pub open spec fn hbs_marker() -> Seq<char> {
    seq!['.', 'h', 'b', 's']
}

/// The output-file suffix appended in place of the template extension.
pub open spec fn html_suffix() -> Seq<char> {
    seq!['.', 'h', 't', 'm', 'l']
}

/// `s` with one trailing template-file marker stripped; a name that does not
/// end in the marker is left as it is.
pub open spec fn strip_marker_suffix(s: Seq<char>) -> Seq<char> {
    if s.len() >= 4 && s.subrange(s.len() - 4, s.len() as int) == hbs_marker() {
        s.subrange(0, s.len() - 4)
    } else {
        s
    }
}

/// `s` with every occurrence of the separator replaced by `/`.
pub open spec fn normalize_separators(s: Seq<char>, sep: char) -> Seq<char> {
    s.map_values(|c: char| if c == sep { '/' } else { c })
}

/// The text before the last separator: the parent of a normalized path, or
/// empty where the path has a single component.
pub open spec fn parent_of(s: Seq<char>, sep: char) -> Seq<char>
    decreases s.len(),
{
    if s.len() == 0 {
        Seq::empty()
    } else if s.last() == sep {
        s.drop_last()
    } else {
        parent_of(s.drop_last(), sep)
    }
}

/// `path` relative to `base`: the whole path when `base` is empty, empty
/// when the two are equal, the remainder after the separator when `base` is
/// a proper component-wise prefix, and nothing otherwise.
pub open spec fn rel_to(path: Seq<char>, base: Seq<char>, sep: char) -> Option<Seq<char>> {
    if base.len() == 0 {
        Some(path)
    } else if path == base {
        Some(Seq::empty())
    } else if path.len() > base.len() && path.subrange(0, base.len() as int) == base && path[
        base.len() as int
    ] == sep {
        Some(path.subrange(base.len() as int + 1, path.len() as int))
    } else {
        None
    }
}

/// The identifier derived from a template path under a scan root: the path
/// is taken relative to the root's parent — so the root's own name opens the
/// identifier and several roots merge into one flat namespace — then the
/// trailing template-file extension is stripped and separators become `/`.
pub open spec fn template_identifier(path: Seq<char>, root: Seq<char>, sep: char) -> Option<
    Seq<char>,
> {
    match rel_to(path, parent_of(root, sep), sep) {
        Option::None => Option::None,
        Option::Some(rel) => Option::Some(normalize_separators(strip_marker_suffix(rel), sep)),
    }
}

/// Whether a path carries the template-file extension: it ends in the
/// marker, and what the marker ends is a file name, not a bare dot entry.
pub open spec fn has_hbs_extension(p: Seq<char>, sep: char) -> bool {
    &&& p.len() >= 5
    &&& p.subrange(p.len() - 4, p.len() as int) == hbs_marker()
    &&& p[p.len() - 5] != sep
}

/// `base` and `rel` joined with the separator; a lone separator is added
/// only where one is needed.
pub open spec fn joined(base: Seq<char>, rel: Seq<char>, sep: char) -> Seq<char> {
    if base.len() == 0 {
        rel
    } else if base.last() == sep {
        base + rel
    } else {
        base.push(sep) + rel
    }
}

/// A nonempty parent is a proper prefix of its path, followed there by the
/// separator; the parent is always shorter than the path.
pub proof fn lemma_parent_of_splits(s: Seq<char>, sep: char)
    ensures
        s.len() == 0 ==> parent_of(s, sep).len() == 0,
        s.len() > 0 ==> parent_of(s, sep).len() < s.len(),
        parent_of(s, sep).len() > 0 ==> parent_of(s, sep) == s.subrange(
            0,
            parent_of(s, sep).len() as int,
        ),
        parent_of(s, sep).len() > 0 ==> s[parent_of(s, sep).len() as int] == sep,
    decreases s.len(),
{
    if s.len() == 0 {
    } else if s.last() == sep {
        assert(s.drop_last() =~= s.subrange(0, s.len() - 1));
    } else {
        lemma_parent_of_splits(s.drop_last(), sep);
        let p = parent_of(s.drop_last(), sep);
        if p.len() > 0 {
            assert(s.drop_last().subrange(0, p.len() as int) =~= s.subrange(0, p.len() as int));
            assert(s.drop_last()[p.len() as int] == s[p.len() as int]);
        }
    }
}

/// Law: a path that lies under a root lies under the root's parent too, so
/// whatever the root-relative view resolves, the namer can name.
pub proof fn lemma_rel_to_parent(path: Seq<char>, root: Seq<char>, sep: char)
    requires
        rel_to(path, root, sep) is Some,
    ensures
        rel_to(path, parent_of(root, sep), sep) is Some,
        template_identifier(path, root, sep) is Some,
{
    lemma_parent_of_splits(root, sep);
    let p = parent_of(root, sep);
    if p.len() > 0 {
        let k = p.len() as int;
        if path == root {
            assert(path.subrange(0, k) =~= p);
        } else {
            let rl = root.len() as int;
            assert(path.subrange(0, rl) == root);
            assert forall|i: int| 0 <= i < k implies path[i] == p[i] by {
                assert(path[i] == path.subrange(0, rl)[i]);
                assert(p[i] == root.subrange(0, k)[i]);
            }
            assert(path.subrange(0, k) =~= p);
            assert(path[k] == path.subrange(0, rl)[k]);
        }
    }
}

/// Strips the template-file extension from the end of `s`, where it has one.
pub fn strip_template_suffix(s: &str) -> (res: String)
    ensures
        res@ == strip_marker_suffix(s@),
{
    let n = s.unicode_len();
    if n >= 4 && s.get_char(n - 4) == '.' && s.get_char(n - 3) == 'h' && s.get_char(n - 2) == 'b'
        && s.get_char(n - 1) == 's' {
        proof {
            assert(s@.subrange(n - 4, n as int) =~= hbs_marker());
        }
        s.substring_char(0, n - 4).to_owned()
    } else {
        proof {
            if s@.len() >= 4 && s@.subrange(s@.len() - 4, s@.len() as int) == hbs_marker() {
                let tail = s@.subrange(n - 4, n as int);
                assert(tail[0] == '.' && tail[1] == 'h' && tail[2] == 'b' && tail[3] == 's');
                assert(false);
            }
        }
        s.to_owned()
    }
}

/// Replaces every separator in `s` by `/`.
pub fn replace_separators(s: &str, sep: char) -> (res: String)
    ensures
        res@ == normalize_separators(s@, sep),
{
    let n = s.unicode_len();
    let mut out = String::new();
    let mut i: usize = 0;
    while i < n
        invariant
            i <= n,
            n == s@.len(),
            out@ =~= normalize_separators(s@.subrange(0, i as int), sep),
        decreases n - i,
    {
        let c = s.get_char(i);
        if c == sep {
            out.push('/');
        } else {
            out.push(c);
        }
        proof {
            assert(s@.subrange(0, i + 1).drop_last() =~= s@.subrange(0, i as int));
            assert(out@ =~= normalize_separators(s@.subrange(0, i + 1), sep)) by {
                let pre = s@.subrange(0, i + 1);
                assert(normalize_separators(pre, sep).len() == pre.len());
                assert(forall|j: int|
                    0 <= j < pre.len() ==> normalize_separators(pre, sep)[j] == (if pre[j] == sep {
                        '/'
                    } else {
                        pre[j]
                    }));
            }
        }
        i = i + 1;
    }
    proof {
        assert(s@.subrange(0, n as int) =~= s@);
    }
    out
}

/// The text before the last separator of `root`, or empty where it has none.
pub fn parent_prefix(root: &str, sep: char) -> (res: String)
    ensures
        res@ == parent_of(root@, sep),
    decreases root@.len(),
{
    let n = root.unicode_len();
    if n == 0 {
        String::new()
    } else {
        let c = root.get_char(n - 1);
        proof {
            assert(root@.drop_last() =~= root@.subrange(0, n - 1));
        }
        if c == sep {
            let head = root.substring_char(0, n - 1);
            head.to_owned()
        } else {
            parent_prefix(root.substring_char(0, n - 1), sep)
        }
    }
}

/// Whether `s` begins with `prefix`, character for character.
pub fn starts_with_text(s: &str, prefix: &str) -> (res: bool)
    ensures
        res == (s@.len() >= prefix@.len() && s@.subrange(0, prefix@.len() as int) == prefix@),
{
    let n = prefix.unicode_len();
    if s.unicode_len() < n {
        return false;
    }
    let mut i: usize = 0;
    while i < n
        invariant
            i <= n,
            n == prefix@.len(),
            s@.len() >= n,
            forall|j: int| 0 <= j < i ==> s@[j] == prefix@[j],
        decreases n - i,
    {
        if s.get_char(i) != prefix.get_char(i) {
            proof {
                if s@.subrange(0, n as int) == prefix@ {
                    assert(s@.subrange(0, n as int)[i as int] == prefix@[i as int]);
                    assert(false);
                }
            }
            return false;
        }
        i = i + 1;
    }
    proof {
        assert(s@.subrange(0, n as int) =~= prefix@);
    }
    true
}

/// `path` relative to `base`, as `rel_to` lays it out; nothing where `base`
/// is neither empty, nor the path itself, nor a component-wise prefix.
pub fn strip_base(path: &str, base: &str, sep: char) -> (res: Option<String>)
    ensures
        res is Some <==> rel_to(path@, base@, sep) is Some,
        res is Some ==> Some(res->0@) == rel_to(path@, base@, sep),
{
    let bn = base.unicode_len();
    let pn = path.unicode_len();
    if bn == 0 {
        return Some(path.to_owned());
    }
    if !starts_with_text(path, base) {
        proof {
            if path@ == base@ {
                assert(path@.subrange(0, bn as int) =~= base@);
            }
        }
        return None;
    }
    if pn == bn {
        proof {
            assert(path@.subrange(0, bn as int) =~= path@);
        }
        return Some(String::new());
    }
    if path.get_char(bn) == sep {
        let rest = path.substring_char(bn + 1, pn);
        Some(rest.to_owned())
    } else {
        None
    }
}

/// Derives the template identifier for `path` found under the scan root
/// `root`: the path relative to the root's parent, the marker removed, the
/// separators normalized. A path that does not lie under the root's parent
/// cannot be named and is rejected.
pub fn path_to_template_name(path: &str, root: &str, sep: char) -> (res: Result<
    String,
    BuildError,
>)
    ensures
        res is Ok <==> template_identifier(path@, root@, sep) is Some,
        res is Ok ==> Some(res->Ok_0@) == template_identifier(path@, root@, sep),
        res is Err ==> res->Err_0 is InvalidPath && res->Err_0.spec_subject() == path@,
{
    let base = parent_prefix(root, sep);
    match strip_base(path, base.as_str(), sep) {
        Some(rel) => {
            let stem = strip_template_suffix(rel.as_str());
            Ok(replace_separators(stem.as_str(), sep))
        },
        None => Err(BuildError::InvalidPath(path.to_owned())),
    }
}

/// Law: a derived identifier never contains the OS separator — wherever the
/// separator could stand, `/` stands instead.
pub proof fn lemma_identifier_no_separator(path: Seq<char>, root: Seq<char>, sep: char)
    requires
        template_identifier(path, root, sep) is Some,
    ensures
        forall|j: int|
            0 <= j < template_identifier(path, root, sep).unwrap().len()
                && template_identifier(path, root, sep).unwrap()[j] == sep ==> sep == '/',
{
    let id = template_identifier(path, root, sep).unwrap();
    let rel = rel_to(path, parent_of(root, sep), sep).unwrap();
    assert forall|j: int| 0 <= j < id.len() && id[j] == sep implies sep == '/' by {
        let inner = strip_marker_suffix(rel);
        assert(id[j] == (if inner[j] == sep {
            '/'
        } else {
            inner[j]
        }));
    }
}

/// Whether `p` names a template file: it ends in the marker, and the marker
/// closes a file name rather than standing alone as one.
pub fn has_template_extension(p: &str, sep: char) -> (res: bool)
    ensures
        res == has_hbs_extension(p@, sep),
{
    let n = p.unicode_len();
    if n < 5 {
        return false;
    }
    let res = p.get_char(n - 4) == '.' && p.get_char(n - 3) == 'h' && p.get_char(n - 2) == 'b'
        && p.get_char(n - 1) == 's' && p.get_char(n - 5) != sep;
    proof {
        let tail = p@.subrange(n - 4, n as int);
        if res {
            assert(tail =~= hbs_marker());
        }
        if has_hbs_extension(p@, sep) {
            assert(tail[0] == '.' && tail[1] == 'h' && tail[2] == 'b' && tail[3] == 's');
        }
    }
    res
}

/// The output's relative path for a content template at relative path `p`:
/// the template extension gives way to the output suffix.
pub fn output_rel_path(p: &str, sep: char) -> (res: Option<String>)
    ensures
        res is Some <==> has_hbs_extension(p@, sep),
        res is Some ==> res->0@ == p@.subrange(0, p@.len() - 4) + html_suffix(),
{
    if !has_template_extension(p, sep) {
        return None;
    }
    let n = p.unicode_len();
    let stem = p.substring_char(0, n - 4);
    let mut out = stem.to_owned();
    out.push('.');
    out.push('h');
    out.push('t');
    out.push('m');
    out.push('l');
    proof {
        assert(out@ =~= p@.subrange(0, p@.len() - 4) + html_suffix());
    }
    Some(out)
}

/// Joins `base` and `rel` with the separator, doubling none.
pub fn join_under(base: &str, rel: &str, sep: char) -> (res: String)
    ensures
        res@ == joined(base@, rel@, sep),
{
    let n = base.unicode_len();
    if n == 0 {
        return rel.to_owned();
    }
    let mut out = base.to_owned();
    if base.get_char(n - 1) != sep {
        out.push(sep);
    }
    let mut i: usize = 0;
    let rn = rel.unicode_len();
    let ghost head = out@;
    while i < rn
        invariant
            i <= rn,
            rn == rel@.len(),
            out@ =~= head + rel@.subrange(0, i as int),
        decreases rn - i,
    {
        let c = rel.get_char(i);
        out.push(c);
        proof {
            assert(head + rel@.subrange(0, i + 1) =~= (head + rel@.subrange(0, i as int)).push(
                rel@[i as int],
            ));
        }
        i = i + 1;
    }
    proof {
        assert(rel@.subrange(0, rn as int) =~= rel@);
    }
    out
}

} // verus!
