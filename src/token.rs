//! The bearer token of this client: where it is kept, the text of its file,
//! reading it back from that text, and making a new one.
use vstd::prelude::*;
use crate::text::text_view;

verus! {

/// The key under which the token is stored.
pub const TOKEN_KEY: &'static str = "BENCH_TOKEN=";

/// Name of the token file in the home directory.
pub const TOKEN_FILE_NAME: &'static str = ".bench.env";

/// The characters a new token is drawn from.
pub const TOKEN_CHARSET: &'static str = "abcdefghijklmnopqrstuvwxyzABCDEFGHIJKLMNOPQRSTUVWXYZ0123456789";

/// Length of a new token.
pub const TOKEN_LEN: usize = 32;

/// The path that `std::path::Path::join` makes of a directory and a name.
pub uninterp spec fn joined_path(dir: Seq<char>, name: Seq<char>) -> Seq<char>;

/// Relies on `std::path::Path::join`: `name` inside `dir`.
#[verifier::external_body]
fn join_path(dir: &str, name: &str) -> (r: String)
    ensures
        r@ == joined_path(dir@, name@),
{
    std::path::Path::new(dir).join(name).to_string_lossy().into_owned()
}

/// Relies on `dirs::home_dir`: the home directory of the current user, if
/// one is known. It depends on the machine, so nothing is stated of it.
#[verifier::external_body]
fn home_dir() -> (r: Option<String>) {
    dirs::home_dir().map(|p| p.to_string_lossy().into_owned())
}

/// Relies on `rand::random_range`: a random number below `n`, which must not
/// be zero.
#[verifier::external_body]
fn random_below(n: usize) -> (r: usize)
    requires
        n > 0,
    ensures
        r < n,
{
    rand::random_range(0..n)
}

/// No home directory is known, so there is nowhere to keep the token.
#[derive(Clone, Copy, Debug, PartialEq, Eq)]
pub enum TokenError {
    NoHomeDirectory,
}

pub struct TokenManager {
    file_path: String,
}

impl TokenManager {
    pub closed spec fn spec_file_path(&self) -> Seq<char> {
        self.file_path@
    }

    /// The token file of the current user, in the home directory.
    pub fn new() -> (r: Result<TokenManager, TokenError>)
        ensures
            r matches Ok(m) ==> exists|h: Seq<char>| m.spec_file_path() == joined_path(h, TOKEN_FILE_NAME@),
    {
        TokenManager::in_home(home_dir())
    }

    /// The token file in the home directory `home`; an error when no home
    /// directory is known.
    pub fn in_home(home: Option<String>) -> (r: Result<TokenManager, TokenError>)
        ensures
            r is Err <==> home is None,
            r is Err ==> r == Err::<TokenManager, TokenError>(TokenError::NoHomeDirectory),
            r matches Ok(m) ==> m.spec_file_path() == joined_path(home->0@, TOKEN_FILE_NAME@),
    {
        match home {
            Some(h) => Ok(TokenManager { file_path: join_path(h.as_str(), TOKEN_FILE_NAME) }),
            None => Err(TokenError::NoHomeDirectory),
        }
    }

    /// A manager of the token file at `path`.
    pub fn at_path(path: &str) -> (r: TokenManager)
        ensures
            r.spec_file_path() == path@,
    {
        TokenManager { file_path: String::from_str(path) }
    }

    pub fn file_path(&self) -> (r: String)
        ensures
            r@ == self.spec_file_path(),
    {
        self.file_path.clone()
    }

    /// The text of the token file that holds `token`.
    pub fn token_file_content(token: &str) -> (r: String)
        ensures
            r@ == TOKEN_KEY@ + token@ + seq!['\n'],
    {
        proof {
            reveal_strlit("\n");
        }
        let mut s = String::from_str(TOKEN_KEY);
        s.append(token);
        s.append("\n");
        s
    }

    /// The token stored in the text of a token file: the rest of its first
    /// line that starts with the key.
    pub fn parse_token_file(content: &str) -> (r: Option<String>)
        ensures
            text_view(r) == token_from(content@, 0),
    {
        let n = content.unicode_len();
        let key_len = TOKEN_KEY.unicode_len();
        let mut start: usize = 0;
        while start < n
            invariant
                n == content@.len(),
                key_len == TOKEN_KEY@.len(),
                start <= n,
                token_from(content@, 0) == token_from(content@, start as int),
            decreases n - start,
        {
            let mut end: usize = start;
            while end < n && content.get_char(end) != '\n'
                invariant
                    n == content@.len(),
                    start <= end <= n,
                    line_end(content@, start as int) == line_end(content@, end as int),
                decreases n - end,
            {
                end = end + 1;
            }
            proof {
                lemma_line_end_bounds(content@, start as int);
                assert(line_end(content@, end as int) == end);
            }
            let line_stop: usize = if end < n && end > start && content.get_char(end - 1) == '\r' {
                end - 1
            } else {
                end
            };
            let line = content.substring_char(start, line_stop);
            assert(line@ == line_at(content@, start as int));
            if has_prefix(line, TOKEN_KEY) {
                let rest = line.substring_char(key_len, line_stop - start);
                assert(rest@ == line@.subrange(TOKEN_KEY@.len() as int, line@.len() as int));
                return Some(String::from_str(rest));
            }
            start = if end < n { end + 1 } else { n };
            assert(token_from(content@, start as int) == token_from(content@, end + 1));
        }
        None
    }

    /// A new random token of `TOKEN_LEN` characters, each a letter or digit.
    pub fn generate_token() -> (r: String)
        ensures
            r@.len() == TOKEN_LEN,
            forall|i: int| 0 <= i < r@.len() ==> TOKEN_CHARSET@.contains(#[trigger] r@[i]),
    {
        proof {
            reveal_strlit("abcdefghijklmnopqrstuvwxyzABCDEFGHIJKLMNOPQRSTUVWXYZ0123456789");
        }
        let n = TOKEN_CHARSET.unicode_len();
        let mut draws: Vec<usize> = Vec::new();
        let mut k: usize = 0;
        while k < TOKEN_LEN
            invariant
                n == TOKEN_CHARSET@.len(),
                n == 62,
                k <= TOKEN_LEN,
                draws@.len() == k,
                forall|i: int| 0 <= i < draws@.len() ==> #[trigger] draws@[i] < TOKEN_CHARSET@.len(),
            decreases TOKEN_LEN - k,
        {
            draws.push(random_below(n));
            k = k + 1;
        }
        let r = TokenManager::token_of_draws(&draws);
        proof {
            assert forall|i: int| 0 <= i < r@.len() implies TOKEN_CHARSET@.contains(#[trigger] r@[i]) by {
                assert(r@[i] == TOKEN_CHARSET@[draws@[i] as int]);
            }
        }
        r
    }

    /// The token made of the charset characters at the drawn indices.
    pub fn token_of_draws(draws: &Vec<usize>) -> (r: String)
        requires
            draws@.len() == TOKEN_LEN,
            forall|i: int| 0 <= i < draws@.len() ==> #[trigger] draws@[i] < TOKEN_CHARSET@.len(),
        ensures
            r@ == Seq::new(TOKEN_LEN as nat, |i: int| TOKEN_CHARSET@[draws@[i] as int]),
    {
        proof {
            reveal_strlit("abcdefghijklmnopqrstuvwxyzABCDEFGHIJKLMNOPQRSTUVWXYZ0123456789");
        }
        let charset: &str = TOKEN_CHARSET;
        let mut s = String::new();
        let mut k: usize = 0;
        while k < draws.len()
            invariant
                charset@ == TOKEN_CHARSET@,
                TOKEN_CHARSET@.len() == 62,
                draws@.len() == TOKEN_LEN,
                forall|i: int| 0 <= i < draws@.len() ==> #[trigger] draws@[i] < TOKEN_CHARSET@.len(),
                k <= draws@.len(),
                s@ == Seq::new(k as nat, |i: int| TOKEN_CHARSET@[draws@[i] as int]),
            decreases draws@.len() - k,
        {
            let idx = draws[k];
            let c = charset.substring_char(idx, idx + 1);
            s.append(c);
            assert(s@ == Seq::new((k + 1) as nat, |i: int| TOKEN_CHARSET@[draws@[i] as int]));
            k = k + 1;
        }
        s
    }
}

/// The index of the first line feed at or after `i`, or the length.
pub open spec fn line_end(s: Seq<char>, i: int) -> int
    decreases s.len() - i,
{
    if i >= s.len() || i < 0 {
        s.len() as int
    } else if s[i] == '\n' {
        i
    } else {
        line_end(s, i + 1)
    }
}

proof fn lemma_line_end_bounds(s: Seq<char>, i: int)
    requires
        0 <= i <= s.len(),
    ensures
        i <= line_end(s, i) <= s.len(),
        line_end(s, i) < s.len() ==> s[line_end(s, i)] == '\n',
    decreases s.len() - i,
{
    if i < s.len() && s[i] != '\n' {
        lemma_line_end_bounds(s, i + 1);
    }
}

/// The line starting at `i`: up to the next line feed, without the carriage
/// return that precedes that line feed.
pub open spec fn line_at(s: Seq<char>, i: int) -> Seq<char> {
    let e = line_end(s, i);
    if e < s.len() && e > i && s[e - 1] == '\r' {
        s.subrange(i, e - 1)
    } else {
        s.subrange(i, e)
    }
}

/// The token in the lines of `s` from index `i` on: the rest of the first
/// line that starts with the key.
pub open spec fn token_from(s: Seq<char>, i: int) -> Option<Seq<char>>
    decreases s.len() - i,
{
    if i < 0 || i >= s.len() {
        None
    } else {
        let line = line_at(s, i);
        if line.len() >= TOKEN_KEY@.len() && line.subrange(0, TOKEN_KEY@.len() as int) == TOKEN_KEY@ {
            Some(line.subrange(TOKEN_KEY@.len() as int, line.len() as int))
        } else if line_end(s, i) < i || line_end(s, i) >= s.len() {
            None
        } else {
            token_from(s, line_end(s, i) + 1)
        }
    }
}

/// Whether `s` starts with `p`.
pub fn has_prefix(s: &str, p: &str) -> (r: bool)
    ensures
        r == (p@.len() <= s@.len() && s@.subrange(0, p@.len() as int) == p@),
{
    let n = s.unicode_len();
    let m = p.unicode_len();
    if m > n {
        return false;
    }
    let mut i: usize = 0;
    while i < m
        invariant
            n == s@.len(),
            m == p@.len(),
            m <= n,
            i <= m,
            forall|k: int| 0 <= k < i ==> s@[k] == p@[k],
        decreases m - i,
    {
        if s.get_char(i) != p.get_char(i) {
            assert(s@.subrange(0, m as int)[i as int] != p@[i as int]);
            return false;
        }
        i = i + 1;
    }
    assert(s@.subrange(0, m as int) == p@);
    true
}

} // verus!
