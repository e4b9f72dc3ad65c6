//! What the path operations do, stated character by character over their
//! inputs and results.

use vstd::prelude::*;

use crate::msys2::{classify, is_windows_drive, posix_to_windows_spec, windows_to_posix_spec};
use crate::text::{ascii_lower, lowercase, starts_with, trim_start_char};

verus! {

/// A character that lowercases to a non-letter is that character.
proof fn lemma_lower_keeps_non_letters(c: char)
    ensures
        ascii_lower(c) == ':' ==> c == ':',
        ascii_lower(c) == '/' ==> c == '/',
        ascii_lower(c) == '\\' ==> c == '\\',
        c == '/' || c == '\\' || c == ':' ==> ascii_lower(c) == c,
{
}

/// What a URL prefix (in any ASCII case) forces on a path.
proof fn lemma_url_shape(s: Seq<char>)
    requires
        starts_with(lowercase(s), "http://"@) || starts_with(lowercase(s), "https://"@)
            || starts_with(lowercase(s), "file://"@),
    ensures
        s.len() >= 7,
        ascii_lower(s[0]) == 'h' || ascii_lower(s[0]) == 'f',
        ascii_lower(s[1]) == 't' || ascii_lower(s[1]) == 'i',
        s.contains(':'),
        s.contains('/'),
{
    reveal_strlit("http://");
    reveal_strlit("https://");
    reveal_strlit("file://");
    let l = lowercase(s);
    let k: int = if starts_with(l, "http://"@) || starts_with(l, "file://"@) { 4 } else { 5 };
    if starts_with(l, "http://"@) {
        assert(l.subrange(0, 7)[0] == 'h' && l.subrange(0, 7)[1] == 't' && l.subrange(0, 7)[4] == ':');
        assert(l.subrange(0, 7)[5] == '/');
    } else if starts_with(l, "https://"@) {
        assert(l.subrange(0, 8)[0] == 'h' && l.subrange(0, 8)[1] == 't' && l.subrange(0, 8)[5] == ':');
        assert(l.subrange(0, 8)[6] == '/');
    } else {
        assert(l.subrange(0, 7)[0] == 'f' && l.subrange(0, 7)[1] == 'i' && l.subrange(0, 7)[4] == ':');
        assert(l.subrange(0, 7)[5] == '/');
    }
    lemma_lower_keeps_non_letters(s[k]);
    assert(s[k] == ':');
    lemma_lower_keeps_non_letters(s[k + 1]);
    assert(s[k + 1] == '/');
}

/// Whether `s` begins with the two characters `a`, `b`.
proof fn lemma_two_char_prefix(s: Seq<char>, a: char, b: char)
    requires
        s.len() >= 1,
    ensures
        starts_with(s, seq![a, b]) <==> (s.len() >= 2 && s[0] == a && s[1] == b),
{
    if s.len() >= 2 && s[0] == a && s[1] == b {
        assert(s.subrange(0, 2) =~= seq![a, b]);
    }
    if starts_with(s, seq![a, b]) {
        assert(s.subrange(0, 2)[0] == a && s.subrange(0, 2)[1] == b);
    }
}

/// The prefix literals that the classification tests.
proof fn lemma_prefix_literals()
    ensures
        "//"@ == seq!['/', '/'],
        "/\\"@ == seq!['/', '\\'],
        "/"@ == seq!['/'],
{
    reveal_strlit("//");
    reveal_strlit("/\\");
    reveal_strlit("/");
    assert("//"@ =~= seq!['/', '/']);
    assert("/\\"@ =~= seq!['/', '\\']);
    assert("/"@ =~= seq!['/']);
}

proof fn lemma_starts_with_slash(s: Seq<char>)
    requires
        s.len() >= 1,
    ensures
        starts_with(s, "/"@) <==> s[0] == '/',
{
    lemma_prefix_literals();
    if s[0] == '/' {
        assert(s.subrange(0, 1) =~= seq!['/']);
    }
    if starts_with(s, "/"@) {
        assert(s.subrange(0, 1)[0] == '/');
    }
}

/// Classification of a path of each shape, decided by its first characters
/// and by which of `:`, `;` and `/` it contains.
pub proof fn lemma_classify_by_shape(s: Seq<char>)
    ensures
        (classify(s) is Empty) <==> s.len() == 0,
        classify(s) is Url ==> s.len() >= 7 && s.contains(':'),
        s.len() >= 2 && s[0] == '/' && s[1] == '/' ==> classify(s) is Unc,
        s.len() >= 2 && s[0] == '/' && s[1] == '\\' ==> classify(s) is EscapedWindows,
        s.len() >= 3 && (('A' <= s[0] && s[0] <= 'Z') || ('a' <= s[0] && s[0] <= 'z')) && s[1]
            == ':' && (s[2] == '\\' || s[2] == '/') ==> classify(s) is SimpleWindows,
        s.len() >= 1 && s[0] == '/' && (s.len() == 1 || (s[1] != '/' && s[1] != '\\'))
            && !s.contains(':') ==> classify(s) is Rooted,
        s.len() >= 2 && s[0] == '/' && s[1] != '/' && s[1] != '\\' && !s.contains(';')
            && s.contains(':') ==> classify(s) is PosixPathList,
        !s.contains('/') && s.contains(';') && s.contains(':') && !(s.len() >= 3 && s[1] == ':')
            ==> classify(s) is WindowsPathList,
        s.len() >= 1 && s[0] == '\\' && !s.contains(':') ==> classify(s) is EscapedPath,
        s.len() >= 1 && s[0] != '/' && s[0] != '\\' && !s.contains(':') ==> classify(s) is Relative,
        classify(s) is EscapedPath ==> s[0] == '\\',
        classify(s) is Rooted ==> s[0] == '/' && !s.contains(':'),
        classify(s) is Relative ==> s[0] != '/' && s[0] != '\\',
{
    lemma_prefix_literals();
    if s.len() >= 1 {
        let url = starts_with(lowercase(s), "http://"@) || starts_with(lowercase(s), "https://"@)
            || starts_with(lowercase(s), "file://"@);
        if url {
            lemma_url_shape(s);
            lemma_lower_keeps_non_letters(s[0]);
            lemma_lower_keeps_non_letters(s[1]);
        }
        lemma_two_char_prefix(s, '/', '/');
        lemma_two_char_prefix(s, '/', '\\');
        lemma_starts_with_slash(s);
        if s.len() >= 3 && s[1] == ':' {
            assert(s.contains(':'));
        }
        if s.len() >= 2 && s[1] == ':' {
            assert(s.contains(':'));
        }
        if s[0] == '/' {
            assert(s.contains('/'));
        }
    }
}

/// A rooted POSIX path goes under the root: the root, a backslash unless the
/// root already ends in one, then the path after its leading slash with each
/// `/` turned into `\` and every other character kept as it is.
pub proof fn lemma_rooted_path_goes_under_root(s: Seq<char>, root: Seq<char>)
    requires
        s.len() >= 1,
        s[0] == '/',
        s.len() == 1 || (s[1] != '/' && s[1] != '\\'),
        !s.contains(':'),
    ensures
        ({
            let out = posix_to_windows_spec(s, root);
            let sep: int = if root.len() > 0 && root[root.len() - 1] == '\\' { 0 } else { 1 };
            &&& out.len() == root.len() + sep + s.len() - 1
            &&& forall|i: int| 0 <= i < root.len() ==> out[i] == root[i]
            &&& sep == 1 ==> out[root.len() as int] == '\\'
            &&& forall|k: int|
                1 <= k < s.len() ==> out[root.len() + sep + k - 1] == (if s[k] == '/' {
                    '\\'
                } else {
                    s[k]
                })
        }),
{
    lemma_classify_by_shape(s);
    let t = s.drop_first();
    assert(trim_start_char(t, '/') == t);
    assert(trim_start_char(s, '/') == t);
}

/// An escaped Windows path (`/\...`) loses its leading slash, each further
/// `/` becoming `\` and every other character kept.
pub proof fn lemma_escaped_windows_path_unescaped(s: Seq<char>, root: Seq<char>)
    requires
        s.len() >= 2,
        s[0] == '/',
        s[1] == '\\',
    ensures
        posix_to_windows_spec(s, root).len() == s.len() - 1,
        forall|k: int|
            1 <= k < s.len() ==> posix_to_windows_spec(s, root)[k - 1] == (if s[k] == '/' {
                '\\'
            } else {
                s[k]
            }),
{
    lemma_classify_by_shape(s);
    let t = s.drop_first();
    assert(trim_start_char(t, '/') == t);
    assert(trim_start_char(s, '/') == t);
}

/// An escaped path (`\...` without `:`) keeps its length, each `/` becoming
/// `\` and every other character kept.
pub proof fn lemma_escaped_path_backslashed(s: Seq<char>, root: Seq<char>)
    requires
        s.len() >= 1,
        s[0] == '\\',
        !s.contains(':'),
    ensures
        posix_to_windows_spec(s, root).len() == s.len(),
        forall|k: int|
            0 <= k < s.len() ==> posix_to_windows_spec(s, root)[k] == (if s[k] == '/' {
                '\\'
            } else {
                s[k]
            }),
{
    lemma_classify_by_shape(s);
}

/// POSIX-to-Windows conversion returns UNC paths, drive paths, relative
/// paths and the empty path unchanged, whatever the root.
pub proof fn lemma_posix_to_windows_keeps_non_posix_shapes(s: Seq<char>, root: Seq<char>)
    requires
        s.len() == 0 || (s.len() >= 2 && s[0] == '/' && s[1] == '/') || (s.len() >= 3 && ((
        'A' <= s[0] && s[0] <= 'Z') || ('a' <= s[0] && s[0] <= 'z')) && s[1] == ':' && (s[2]
            == '\\' || s[2] == '/')) || (s.len() >= 1 && s[0] != '/' && s[0] != '\\'
            && !s.contains(':')),
    ensures
        posix_to_windows_spec(s, root) == s,
{
    lemma_classify_by_shape(s);
}

/// A drive path `X:\rest` or `X:/rest` becomes `/X` followed by the rest,
/// each `\` turned into `/` and every other character kept; the `:` of the
/// drive is dropped.
pub proof fn lemma_drive_path_to_posix(s: Seq<char>)
    requires
        s.len() >= 3,
        ('A' <= s[0] && s[0] <= 'Z') || ('a' <= s[0] && s[0] <= 'z'),
        s[1] == ':',
        s[2] == '\\' || s[2] == '/',
    ensures
        windows_to_posix_spec(s).len() == s.len(),
        windows_to_posix_spec(s)[0] == '/',
        windows_to_posix_spec(s)[1] == s[0],
        forall|k: int|
            2 <= k < s.len() ==> windows_to_posix_spec(s)[k] == (if s[k] == '\\' {
                '/'
            } else {
                s[k]
            }),
{
    lemma_classify_by_shape(s);
}

/// A path that is neither a drive path nor holds a `;` keeps its length in
/// Windows-to-POSIX conversion, each `\` becoming `/` and every other
/// character kept.
pub proof fn lemma_plain_path_to_posix(s: Seq<char>)
    requires
        !s.contains(';'),
        !(s.len() >= 3 && (('A' <= s[0] && s[0] <= 'Z') || ('a' <= s[0] && s[0] <= 'z'))
            && s[1] == ':' && (s[2] == '\\' || s[2] == '/')),
    ensures
        windows_to_posix_spec(s).len() == s.len(),
        forall|k: int|
            0 <= k < s.len() ==> windows_to_posix_spec(s)[k] == (if s[k] == '\\' {
                '/'
            } else {
                s[k]
            }),
{
    assert(!is_windows_drive(s));
}

/// A path that begins with `http://`, `https://` or `file://`, letters in
/// either case, is a URL.
pub proof fn lemma_url_prefixes_classify_as_url(s: Seq<char>)
    requires
        s.len() >= 7,
        ({
            let http = (s[0] == 'h' || s[0] == 'H') && (s[1] == 't' || s[1] == 'T') && (s[2] == 't'
                || s[2] == 'T') && (s[3] == 'p' || s[3] == 'P');
            let file = (s[0] == 'f' || s[0] == 'F') && (s[1] == 'i' || s[1] == 'I') && (s[2] == 'l'
                || s[2] == 'L') && (s[3] == 'e' || s[3] == 'E');
            ||| (http || file) && s[4] == ':' && s[5] == '/' && s[6] == '/'
            ||| http && s.len() >= 8 && (s[4] == 's' || s[4] == 'S') && s[5] == ':' && s[6] == '/'
                && s[7] == '/'
        }),
    ensures
        classify(s) is Url,
{
    reveal_strlit("http://");
    reveal_strlit("https://");
    reveal_strlit("file://");
    let l = lowercase(s);
    if (s[0] == 'h' || s[0] == 'H') && s[4] == ':' {
        assert(l.subrange(0, 7) =~= "http://"@);
    } else if (s[0] == 'f' || s[0] == 'F') {
        assert(l.subrange(0, 7) =~= "file://"@);
    } else {
        assert(l.subrange(0, 8) =~= "https://"@);
    }
}

} // verus!
