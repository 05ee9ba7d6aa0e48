use vstd::prelude::*;
use vstd::string::StrSliceExecFns;

verus! {

/// A character that may stand in a cache path: everything but the characters
/// stripped from URLs.
pub open spec fn legal_path_char(c: char) -> bool {
    c != ':' && c != '?' && c != '='
}

/// A URL with the characters illegal or problematic in paths removed.
pub open spec fn strip_illegal(s: Seq<char>) -> Seq<char>
    decreases s.len(),
{
    if s.len() == 0 {
        Seq::empty()
    } else if legal_path_char(s.last()) {
        strip_illegal(s.drop_last()).push(s.last())
    } else {
        strip_illegal(s.drop_last())
    }
}

/// The base directory under which every cache file lives.
pub open spec fn base_dir() -> Seq<char> {
    "data/"@
}

/// The file name used when the stripped URL names a directory.
pub open spec fn default_file_name() -> Seq<char> {
    "data.txt"@
}

/// The resolved cache path of a URL: the stripped URL nested under the base
/// directory, with the default file name appended when the result would name
/// a directory rather than a file.
pub open spec fn resolve_spec(url: Seq<char>) -> Seq<char> {
    let joined = base_dir() + strip_illegal(url);
    if joined.last() == '/' {
        joined + default_file_name()
    } else {
        joined
    }
}

proof fn lemma_take_one_more(s: Seq<char>, i: int)
    requires
        0 <= i < s.len(),
    ensures
        s.take(i + 1).drop_last() == s.take(i),
        s.take(i + 1).last() == s[i],
{
    assert(s.take(i + 1).drop_last() =~= s.take(i));
}

/// Map a URL to the cache file path that mirrors it.
pub fn resolve(url: &str) -> (p: String)
    ensures
        p@ == resolve_spec(url@),
{
    proof {
        reveal_strlit("data/");
        reveal_strlit("data.txt");
    }
    let mut out: Vec<char> = Vec::new();
    out.push('d');
    out.push('a');
    out.push('t');
    out.push('a');
    out.push('/');
    proof {
        assert(url@.take(0) =~= Seq::<char>::empty());
        assert(out@ =~= base_dir() + strip_illegal(url@.take(0)));
    }
    let n = url.unicode_len();
    let mut i: usize = 0;
    while i < n
        invariant
            n == url@.len(),
            i <= n,
            out@ == base_dir() + strip_illegal(url@.take(i as int)),
        decreases n - i,
    {
        let c = url.get_char(i);
        proof {
            lemma_take_one_more(url@, i as int);
        }
        if c != ':' && c != '?' && c != '=' {
            out.push(c);
            proof {
                assert(out@ =~= base_dir() + strip_illegal(url@.take(i as int + 1)));
            }
        }
        i = i + 1;
    }
    proof {
        assert(url@.take(n as int) =~= url@);
        assert(out@.len() >= 5);
    }
    let last = out[out.len() - 1];
    if last == '/' {
        out.push('d');
        out.push('a');
        out.push('t');
        out.push('a');
        out.push('.');
        out.push('t');
        out.push('x');
        out.push('t');
        proof {
            assert(out@ =~= (base_dir() + strip_illegal(url@)) + default_file_name());
        }
    }
    chars_to_string(&out)
}

/// Relies on String's FromIterator over characters: the collected string
/// holds exactly the given characters in order.
#[verifier::external_body]
fn chars_to_string(cs: &Vec<char>) -> (r: String)
    ensures
        r@ == cs@,
{
    cs.iter().collect()
}

proof fn lemma_strip_legal(s: Seq<char>)
    ensures
        forall|i: int|
            0 <= i < strip_illegal(s).len() ==> legal_path_char(#[trigger] strip_illegal(s)[i]),
        strip_illegal(s).len() <= s.len(),
    decreases s.len(),
{
    if s.len() > 0 {
        lemma_strip_legal(s.drop_last());
    }
}

proof fn lemma_strip_keeps_trailing_slash(s: Seq<char>)
    requires
        s.len() > 0,
        s.last() == '/',
    ensures
        strip_illegal(s).len() > 0,
        strip_illegal(s).last() == '/',
{
}

/// Law: every resolved path is free of the characters stripped from URLs,
/// begins with the base directory, and, for a URL that ends in '/', ends
/// with the default file name.
pub proof fn lemma_resolve_clean(url: Seq<char>)
    ensures
        forall|i: int|
            0 <= i < resolve_spec(url).len() ==> legal_path_char(#[trigger] resolve_spec(url)[i]),
        resolve_spec(url).len() >= base_dir().len(),
        resolve_spec(url).take(base_dir().len() as int) == base_dir(),
        url.len() > 0 && url.last() == '/' ==> resolve_spec(url).skip(
            resolve_spec(url).len() - default_file_name().len(),
        ) == default_file_name(),
{
    reveal_strlit("data/");
    reveal_strlit("data.txt");
    lemma_strip_legal(url);
    let joined = base_dir() + strip_illegal(url);
    let r = resolve_spec(url);
    assert forall|i: int| 0 <= i < base_dir().len() implies legal_path_char(base_dir()[i]) by {}
    assert forall|i: int|
        0 <= i < default_file_name().len() implies legal_path_char(default_file_name()[i]) by {}
    assert(r.take(base_dir().len() as int) =~= base_dir());
    if url.len() > 0 && url.last() == '/' {
        lemma_strip_keeps_trailing_slash(url);
        assert(joined.last() == '/');
        assert(r =~= joined + default_file_name());
        assert(r.skip(r.len() - default_file_name().len()) =~= default_file_name());
    }
}

} // verus!
