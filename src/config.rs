use vstd::prelude::*;

verus! {

/// Where the service lives and the token that authorizes calls to it.
#[derive(Clone, Debug)]
pub struct Config {
    pub base_url: String,
    pub access_token: String,
}

/// `s` with every trailing `/` removed.
pub open spec fn trim_trailing_slashes(s: Seq<char>) -> Seq<char>
    decreases s.len(),
{
    if s.len() > 0 && s.last() == '/' {
        trim_trailing_slashes(s.drop_last())
    } else {
        s
    }
}

/// The path segment appended to the base URL.
pub open spec fn run_path() -> Seq<char> {
    seq!['/', 'r', 'u', 'n']
}

/// The run endpoint derived from a base URL.
pub open spec fn run_url_of(base_url: Seq<char>) -> Seq<char> {
    trim_trailing_slashes(base_url) + run_path()
}

proof fn lemma_trim_shape(s: Seq<char>)
    ensures
        trim_trailing_slashes(s).is_prefix_of(s),
        trim_trailing_slashes(s).len() == 0 || trim_trailing_slashes(s).last() != '/',
        forall|i: int|
            trim_trailing_slashes(s).len() <= i < s.len() ==> #[trigger] s[i] == '/',
    decreases s.len(),
{
    if s.len() > 0 && s.last() == '/' {
        lemma_trim_shape(s.drop_last());
        assert forall|i: int| trim_trailing_slashes(s).len() <= i < s.len() implies s[i] == '/' by {
            if i < s.len() - 1 {
                assert(s.drop_last()[i] == s[i]);
            }
        }
    }
}

/// The run endpoint does not depend on a trailing slash of the base URL, and it
/// has exactly one slash before `run`: it is a prefix of the base URL that does
/// not end in a slash, followed by `/run`, and only slashes were dropped.
pub proof fn lemma_run_url_one_slash(base_url: Seq<char>)
    ensures
        run_url_of(base_url.push('/')) == run_url_of(base_url),
        ({
            let head = trim_trailing_slashes(base_url);
            &&& run_url_of(base_url) == head + run_path()
            &&& head.len() == 0 || head.last() != '/'
            &&& head.is_prefix_of(base_url)
            &&& forall|i: int| head.len() <= i < base_url.len() ==> #[trigger] base_url[i] == '/'
        }),
{
    assert(base_url.push('/').drop_last() =~= base_url);
    lemma_trim_shape(base_url);
}

impl Config {
    /// The run endpoint: the base URL without trailing slashes, then `/run`.
    pub fn run_url(&self) -> (r: String)
        ensures
            r@ == run_url_of(self.base_url@),
    {
        let base = self.base_url.as_str();
        let n = base.unicode_len();
        let mut end: usize = n;
        assert(base@.subrange(0, n as int) =~= base@);
        while end > 0 && base.get_char(end - 1) == '/'
            invariant
                end <= n,
                n == base@.len(),
                trim_trailing_slashes(base@.subrange(0, end as int)) == trim_trailing_slashes(base@),
            decreases end,
        {
            assert(base@.subrange(0, end as int).drop_last() =~= base@.subrange(0, end - 1));
            end = end - 1;
        }
        let mut url = String::from_str(base.substring_char(0, end));
        url.append("/run");
        proof {
            reveal_strlit("/run");
            assert("/run"@ =~= run_path());
        }
        url
    }
}

} // verus!
