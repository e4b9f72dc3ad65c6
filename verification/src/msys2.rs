//! MSYS2-style path classification and conversion between POSIX and
//! Windows path forms.

use vstd::prelude::*;

use crate::text::{
    append_chars, append_replaced, chars_of, contains_char, count_leading, ends_with_char,
    has_prefix, is_ascii_alpha, join_with, lemma_join_lacks, lemma_join_push,
    lemma_split_pieces_lack_sep, lemma_split_push, lowercase, push_char, replace_char, split_on,
    starts_with, trim_start_char,
};

verus! {

/// The kinds of path that the conversions tell apart.
#[derive(Debug, Clone, Copy, PartialEq, Eq, Structural)]
pub enum MsysPathType {
    Empty,
    SimpleWindows,
    EscapedWindows,
    WindowsPathList,
    Unc,
    EscapedPath,
    Rooted,
    PosixPathList,
    Relative,
    Url,
}

/// A drive letter, a colon and a slash or backslash: `C:\...` or `C:/...`.
pub open spec fn is_windows_drive(s: Seq<char>) -> bool {
    &&& s.len() >= 3
    &&& is_ascii_alpha(s[0])
    &&& s[1] == ':'
    &&& (s[2] == '\\' || s[2] == '/')
}

/// The classification of a path, the first rule that applies winning.
pub open spec fn classify(s: Seq<char>) -> MsysPathType {
    if s.len() == 0 {
        MsysPathType::Empty
    } else if starts_with(lowercase(s), "http://"@) || starts_with(lowercase(s), "https://"@)
        || starts_with(lowercase(s), "file://"@) {
        MsysPathType::Url
    } else if starts_with(s, "//"@) {
        MsysPathType::Unc
    } else if starts_with(s, "/\\"@) {
        MsysPathType::EscapedWindows
    } else if is_windows_drive(s) {
        MsysPathType::SimpleWindows
    } else if s.contains(';') && s.contains(':') {
        MsysPathType::WindowsPathList
    } else if s.contains(':') && s.contains('/') {
        MsysPathType::PosixPathList
    } else if starts_with(s, "/"@) {
        MsysPathType::Rooted
    } else if s[0] == '\\' {
        MsysPathType::EscapedPath
    } else {
        MsysPathType::Relative
    }
}

/// POSIX-to-Windows conversion of a path that is not a list.
pub open spec fn posix_single(s: Seq<char>, root: Seq<char>) -> Seq<char> {
    match classify(s) {
        MsysPathType::Rooted => root + (if ends_with_char(root, '\\') {
            Seq::<char>::empty()
        } else {
            seq!['\\']
        }) + replace_char(trim_start_char(s, '/'), '/', '\\'),
        MsysPathType::EscapedWindows => replace_char(trim_start_char(s, '/'), '/', '\\'),
        MsysPathType::EscapedPath => replace_char(s, '/', '\\'),
        _ => s,
    }
}

/// POSIX-to-Windows conversion: a POSIX path list (`:`-separated) becomes a
/// `;`-separated list of its converted pieces.
pub open spec fn posix_to_windows_spec(s: Seq<char>, root: Seq<char>) -> Seq<char> {
    if classify(s) is PosixPathList {
        join_with(split_on(s, ':').map_values(|seg: Seq<char>| posix_single(seg, root)), ';')
    } else {
        posix_single(s, root)
    }
}

/// Windows-to-POSIX conversion of a path that is not a list.
pub open spec fn windows_single(s: Seq<char>) -> Seq<char> {
    if classify(s) is SimpleWindows {
        seq!['/', s[0]] + replace_char(s.skip(2), '\\', '/')
    } else {
        replace_char(s, '\\', '/')
    }
}

/// Windows-to-POSIX conversion: a Windows path list (`;`-separated) becomes
/// a `:`-separated list of its converted pieces.
pub open spec fn windows_to_posix_spec(s: Seq<char>) -> Seq<char> {
    if classify(s) is WindowsPathList {
        join_with(split_on(s, ';').map_values(|seg: Seq<char>| windows_single(seg)), ':')
    } else {
        windows_single(s)
    }
}

/// Conversion of one piece of a list, in either direction.
pub open spec fn convert_piece(to_windows: bool, seg: Seq<char>, root: Seq<char>) -> Seq<char> {
    if to_windows {
        posix_single(seg, root)
    } else {
        windows_single(seg)
    }
}

fn is_drive_chars(v: &Vec<char>) -> (r: bool)
    ensures
        r == is_windows_drive(v@),
{
    if v.len() < 3 {
        return false;
    }
    let c = v[0];
    let alpha = ('A' <= c && c <= 'Z') || ('a' <= c && c <= 'z');
    alpha && v[1] == ':' && (v[2] == '\\' || v[2] == '/')
}

fn classify_chars(v: &Vec<char>) -> (t: MsysPathType)
    ensures
        t == classify(v@),
{
    if v.len() == 0 {
        MsysPathType::Empty
    } else if has_prefix(v, "http://", true) || has_prefix(v, "https://", true) || has_prefix(
        v,
        "file://",
        true,
    ) {
        MsysPathType::Url
    } else if has_prefix(v, "//", false) {
        MsysPathType::Unc
    } else if has_prefix(v, "/\\", false) {
        MsysPathType::EscapedWindows
    } else if is_drive_chars(v) {
        MsysPathType::SimpleWindows
    } else if contains_char(v, ';') && contains_char(v, ':') {
        MsysPathType::WindowsPathList
    } else if contains_char(v, ':') && contains_char(v, '/') {
        MsysPathType::PosixPathList
    } else if has_prefix(v, "/", false) {
        MsysPathType::Rooted
    } else if v[0] == '\\' {
        MsysPathType::EscapedPath
    } else {
        MsysPathType::Relative
    }
}

/// Classifies a path as POSIX, Windows, a list of either, a UNC path, a URL
/// or a relative path.
pub fn classify_path(input: &str) -> (t: MsysPathType)
    ensures
        t == classify(input@),
{
    let v = chars_of(input);
    classify_chars(&v)
}

/// Whether the path begins with a drive letter, a colon and a separator.
pub fn looks_like_windows_drive(input: &str) -> (r: bool)
    ensures
        r == is_windows_drive(input@),
{
    let v = chars_of(input);
    is_drive_chars(&v)
}

fn posix_single_exec(v: &Vec<char>, root: &Vec<char>) -> (out: String)
    ensures
        out@ == posix_single(v@, root@),
{
    let kind = classify_chars(v);
    let mut out = String::new();
    assert(v@.skip(0) =~= v@);
    assert(root@.skip(0) =~= root@);
    match kind {
        MsysPathType::Rooted => {
            append_chars(&mut out, root, 0);
            let ghost with_root = out@;
            let ends = root.len() > 0 && root[root.len() - 1] == '\\';
            if !ends {
                push_char(&mut out, '\\');
            }
            let ghost sep = if ends { Seq::<char>::empty() } else { seq!['\\'] };
            assert(out@ =~= root@ + sep);
            let n = count_leading(v, '/');
            append_replaced(&mut out, v, n, '/', '\\');
        },
        MsysPathType::EscapedWindows => {
            let n = count_leading(v, '/');
            append_replaced(&mut out, v, n, '/', '\\');
            assert(out@ =~= replace_char(trim_start_char(v@, '/'), '/', '\\'));
        },
        MsysPathType::EscapedPath => {
            append_replaced(&mut out, v, 0, '/', '\\');
            assert(out@ =~= replace_char(v@, '/', '\\'));
        },
        _ => {
            append_chars(&mut out, v, 0);
            assert(out@ =~= v@);
        },
    }
    out
}

fn windows_single_exec(v: &Vec<char>) -> (out: String)
    ensures
        out@ == windows_single(v@),
{
    let kind = classify_chars(v);
    let mut out = String::new();
    match kind {
        MsysPathType::SimpleWindows => {
            push_char(&mut out, '/');
            push_char(&mut out, v[0]);
            append_replaced(&mut out, v, 2, '\\', '/');
            assert(out@ =~= seq!['/', v@[0]] + replace_char(v@.skip(2), '\\', '/'));
        },
        _ => {
            append_replaced(&mut out, v, 0, '\\', '/');
            assert(v@.skip(0) =~= v@);
            assert(out@ =~= replace_char(v@, '\\', '/'));
        },
    }
    out
}

fn convert_piece_exec(to_windows: bool, seg: &Vec<char>, root: &Vec<char>) -> (out: String)
    ensures
        out@ == convert_piece(to_windows, seg@, root@),
{
    if to_windows {
        posix_single_exec(seg, root)
    } else {
        windows_single_exec(seg)
    }
}

/// Splits `v` at `sep`, converts each piece and joins the results with `joiner`.
fn convert_list(v: &Vec<char>, sep: char, joiner: char, to_windows: bool, root: &Vec<char>) -> (out:
    String)
    ensures
        out@ == join_with(
            split_on(v@, sep).map_values(|seg: Seq<char>| convert_piece(to_windows, seg, root@)),
            joiner,
        ),
{
    let ghost f = |seg: Seq<char>| convert_piece(to_windows, seg, root@);
    let mut out = String::new();
    let mut cur: Vec<char> = Vec::new();
    let mut first = true;
    proof {
        assert(v@.take(0) =~= Seq::<char>::empty());
    }
    for i in 0..v.len()
        invariant
            f == (|seg: Seq<char>| convert_piece(to_windows, seg, root@)),
            split_on(v@.take(i as int), sep).len() >= 1,
            split_on(v@.take(i as int), sep).last() == cur@,
            out@ == join_with(split_on(v@.take(i as int), sep).drop_last().map_values(f), joiner),
            first == (split_on(v@.take(i as int), sep).len() == 1),
    {
        let ghost segs = split_on(v@.take(i as int), sep);
        let c = v[i];
        proof {
            assert(v@.take(i + 1) =~= v@.take(i as int).push(c));
            lemma_split_push(v@.take(i as int), c, sep);
        }
        if c == sep {
            let piece = convert_piece_exec(to_windows, &cur, root);
            proof {
                lemma_join_push(segs.drop_last().map_values(f), f(segs.last()), joiner);
                assert(segs.drop_last().map_values(f).push(f(segs.last())) =~= segs.map_values(f));
            }
            if !first {
                push_char(&mut out, joiner);
            }
            out.append(piece.as_str());
            cur = Vec::new();
            first = false;
            proof {
                let nsegs = segs.push(Seq::<char>::empty());
                assert(nsegs.drop_last() =~= segs);
            }
        } else {
            cur.push(c);
            proof {
                let nsegs = segs.update(segs.len() - 1, segs.last().push(c));
                assert(nsegs.drop_last() =~= segs.drop_last());
            }
        }
    }
    let ghost segs = split_on(v@.take(v@.len() as int), sep);
    proof {
        assert(v@.take(v@.len() as int) =~= v@);
        lemma_join_push(segs.drop_last().map_values(f), f(segs.last()), joiner);
        assert(segs.drop_last().map_values(f).push(f(segs.last())) =~= segs.map_values(f));
    }
    let piece = convert_piece_exec(to_windows, &cur, root);
    if !first {
        push_char(&mut out, joiner);
    }
    out.append(piece.as_str());
    out
}

/// Converts a POSIX path (or `:`-separated list) to Windows form, rooted
/// paths being placed under `root`.
pub fn posix_to_windows(input: &str, root: &str) -> (out: String)
    ensures
        out@ == posix_to_windows_spec(input@, root@),
{
    let v = chars_of(input);
    let r = chars_of(root);
    match classify_chars(&v) {
        MsysPathType::PosixPathList => {
            let out = convert_list(&v, ':', ';', true, &r);
            assert(split_on(v@, ':').map_values(
                |seg: Seq<char>| convert_piece(true, seg, r@),
            ) =~= split_on(v@, ':').map_values(|seg: Seq<char>| posix_single(seg, r@)));
            out
        },
        _ => posix_single_exec(&v, &r),
    }
}

/// Converts a Windows path (or `;`-separated list) to POSIX form.
pub fn windows_to_posix(input: &str) -> (out: String)
    ensures
        out@ == windows_to_posix_spec(input@),
{
    let v = chars_of(input);
    let r: Vec<char> = Vec::new();
    match classify_chars(&v) {
        MsysPathType::WindowsPathList => {
            let out = convert_list(&v, ';', ':', false, &r);
            assert(split_on(v@, ';').map_values(
                |seg: Seq<char>| convert_piece(false, seg, r@),
            ) =~= split_on(v@, ';').map_values(|seg: Seq<char>| windows_single(seg)));
            out
        },
        _ => windows_single_exec(&v),
    }
}

/// A POSIX path list converts piece by piece: the result is the `;`-join of
/// the conversions of its `:`-separated pieces, each converted as a path of
/// its own.
pub proof fn lemma_posix_list_converts_each_piece(s: Seq<char>, root: Seq<char>)
    requires
        classify(s) is PosixPathList,
    ensures
        posix_to_windows_spec(s, root) == join_with(
            split_on(s, ':').map_values(|seg: Seq<char>| posix_to_windows_spec(seg, root)),
            ';',
        ),
{
    let parts = split_on(s, ':');
    lemma_split_pieces_lack_sep(s, ':');
    assert forall|i: int| 0 <= i < parts.len() implies posix_to_windows_spec(
        #[trigger] parts[i],
        root,
    ) == posix_single(parts[i], root) by {
        assert(!parts[i].contains(':'));
    }
    assert(parts.map_values(|seg: Seq<char>| posix_to_windows_spec(seg, root)) =~= parts.map_values(
        |seg: Seq<char>| posix_single(seg, root),
    ));
}

/// A Windows path list converts piece by piece: the result is the `:`-join
/// of the conversions of its `;`-separated pieces, each converted as a path
/// of its own.
pub proof fn lemma_windows_list_converts_each_piece(s: Seq<char>)
    requires
        classify(s) is WindowsPathList,
    ensures
        windows_to_posix_spec(s) == join_with(
            split_on(s, ';').map_values(|seg: Seq<char>| windows_to_posix_spec(seg)),
            ':',
        ),
{
    let parts = split_on(s, ';');
    lemma_split_pieces_lack_sep(s, ';');
    assert forall|i: int| 0 <= i < parts.len() implies windows_to_posix_spec(#[trigger] parts[i])
        == windows_single(parts[i]) by {
        assert(!parts[i].contains(';'));
    }
    assert(parts.map_values(|seg: Seq<char>| windows_to_posix_spec(seg)) =~= parts.map_values(
        |seg: Seq<char>| windows_single(seg),
    ));
}

proof fn lemma_replace_removes(s: Seq<char>, from: char, to: char)
    requires
        from != to,
    ensures
        !replace_char(s, from, to).contains(from),
{
    assert forall|k: int| 0 <= k < replace_char(s, from, to).len() implies replace_char(
        s,
        from,
        to,
    )[k] != from by {}
}

proof fn lemma_windows_single_no_backslash(s: Seq<char>)
    ensures
        !windows_single(s).contains('\\'),
{
    if classify(s) is SimpleWindows {
        let r = replace_char(s.skip(2), '\\', '/');
        lemma_replace_removes(s.skip(2), '\\', '/');
        let h = seq!['/', s[0]];
        assert forall|k: int| 0 <= k < (h + r).len() implies (h + r)[k] != '\\' by {
            if k >= 2 {
                assert((h + r)[k] == r[k - 2]);
            }
        }
    } else {
        lemma_replace_removes(s, '\\', '/');
    }
}

/// A Windows-to-POSIX conversion leaves no backslash in its result.
pub proof fn lemma_windows_to_posix_has_no_backslash(s: Seq<char>)
    ensures
        !windows_to_posix_spec(s).contains('\\'),
{
    if classify(s) is WindowsPathList {
        let parts = split_on(s, ';').map_values(|seg: Seq<char>| windows_single(seg));
        assert forall|i: int| 0 <= i < parts.len() implies !(#[trigger] parts[i]).contains('\\') by {
            lemma_windows_single_no_backslash(split_on(s, ';')[i]);
        }
        lemma_join_lacks(parts, ':', '\\');
    } else {
        lemma_windows_single_no_backslash(s);
    }
}

/// POSIX-to-Windows conversion returns every path that is not rooted,
/// escaped or a POSIX list unchanged.
pub proof fn lemma_posix_to_windows_keeps_other_paths(s: Seq<char>, root: Seq<char>)
    requires
        !(classify(s) is Rooted),
        !(classify(s) is EscapedWindows),
        !(classify(s) is EscapedPath),
        !(classify(s) is PosixPathList),
    ensures
        posix_to_windows_spec(s, root) == s,
{
}

proof fn lemma_windows_single_keeps_absence(s: Seq<char>, c: char)
    requires
        !s.contains(c),
        c != '/',
        c != '\\',
        !is_ascii_alpha(c),
    ensures
        !windows_single(s).contains(c),
{
    if classify(s) is SimpleWindows {
        let r = replace_char(s.skip(2), '\\', '/');
        let h = seq!['/', s[0]];
        assert forall|k: int| 0 <= k < (h + r).len() implies (h + r)[k] != c by {
            if k >= 2 {
                assert((h + r)[k] == r[k - 2]);
                assert(s.skip(2)[k - 2] == s[k]);
            }
        }
    } else {
        let r = replace_char(s, '\\', '/');
        assert forall|k: int| 0 <= k < r.len() implies r[k] != c by {
            assert(s[k] != c);
        }
    }
}

/// A Windows path list comes out as a POSIX list: its pieces are joined by
/// `:` and no `;` is left.
pub proof fn lemma_windows_list_result_has_no_semicolon(s: Seq<char>)
    requires
        classify(s) is WindowsPathList,
    ensures
        !windows_to_posix_spec(s).contains(';'),
{
    let pieces = split_on(s, ';');
    lemma_split_pieces_lack_sep(s, ';');
    let parts = pieces.map_values(|seg: Seq<char>| windows_single(seg));
    assert forall|i: int| 0 <= i < parts.len() implies !(#[trigger] parts[i]).contains(';') by {
        assert(!pieces[i].contains(';'));
        lemma_windows_single_keeps_absence(pieces[i], ';');
    }
    lemma_join_lacks(parts, ':', ';');
}

} // verus!
