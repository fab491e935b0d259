use vstd::prelude::*;

use crate::text::{basename, last_segment};

verus! {

/// The web host under which gists live, with its trailing slash.
pub open spec fn gist_host() -> Seq<char> {
    "https://gist.github.com/"@
}

/// What `find_url` returns: `None` unless the input starts with the gist web
/// host and has characters beyond it; an input that already ends in `.git`
/// unchanged; otherwise the clone URL built from the input's final
/// `/`-delimited segment.
pub open spec fn spec_find_url(s: Seq<char>) -> Option<Seq<char>> {
    if s.len() <= gist_host().len() || s.take(gist_host().len() as int) != gist_host() {
        Option::None
    } else if s.skip(s.len() - 4) == ".git"@ {
        Option::Some(s)
    } else {
        Option::Some(gist_host() + basename(s) + ".git"@)
    }
}

/// A gist seen as a repository that an external version-control tool can
/// clone.
pub struct GistRepo {
    pub name: String,
}

impl GistRepo {
    /// Examines `val` to find a clonable gist repository URL.
    pub fn find_url(val: &str) -> (r: Option<String>)
        ensures
            match r {
                Option::Some(u) => spec_find_url(val@) == Option::Some(u@),
                Option::None => spec_find_url(val@) is None,
            },
    {
        let host = "https://gist.github.com/";
        proof {
            reveal_strlit("https://gist.github.com/");
        }
        let n = val.unicode_len();
        if n <= 24 {
            return None;
        }
        let mut i: usize = 0;
        while i < 24
            invariant
                i <= 24,
                n == val@.len(),
                n > 24,
                host@ == gist_host(),
                host@.len() == 24,
                forall|j: int| 0 <= j < i ==> val@[j] == gist_host()[j],
            decreases 24 - i,
        {
            if val.get_char(i) != host.get_char(i) {
                proof {
                    assert(val@.take(24)[i as int] == val@[i as int]);
                    assert(val@.take(24) != gist_host());
                }
                return None;
            }
            i = i + 1;
        }
        proof {
            assert(val@.take(24) =~= gist_host());
        }
        if val.get_char(n - 4) == '.' && val.get_char(n - 3) == 'g' && val.get_char(n - 2) == 'i'
            && val.get_char(n - 1) == 't' {
            proof {
                reveal_strlit(".git");
                assert(val@.skip(n - 4) =~= ".git"@);
            }
            return Some(val.to_owned());
        }
        proof {
            reveal_strlit(".git");
            assert(val@.skip(n - 4) != ".git"@) by {
                if val@.skip(n - 4) == ".git"@ {
                    assert(val@.skip(n - 4)[0] == val@[n - 4]);
                    assert(val@.skip(n - 4)[1] == val@[n - 3]);
                    assert(val@.skip(n - 4)[2] == val@[n - 2]);
                    assert(val@.skip(n - 4)[3] == val@[n - 1]);
                }
            }
        }
        let seg = last_segment(val);
        let mut url = String::from_str("https://gist.github.com/");
        url.append(seg.as_str());
        url.append(".git");
        proof {
            assert(url@ =~= gist_host() + basename(val@) + ".git"@);
        }
        Some(url)
    }
}

} // verus!
