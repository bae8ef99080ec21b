//! Parsing the owner and repository name out of a configured remote URL.
//! Both the SSH-style form `git@github.com:owner/repo.git` and the
//! HTTPS-style form `https://github.com/owner/repo.git` are understood; a
//! URL that does not point at github.com is rejected.

use vstd::prelude::*;
use crate::data::RepoIdentity;
use crate::text::{
    contains_seq, ends_with, first_index_of, last_index_of, lemma_first_index_of, starts_with,
    str_contains, str_ends_with, str_find, str_rfind, str_starts_with,
};
use vstd::string::StrSliceExecFns;

verus! {

/// The part of the URL holding the `owner/repo` path: for an SSH-style URL
/// (`git@` prefix) everything after the first `:`; otherwise the URL itself.
/// An SSH-style URL without a `:` has no such part.
pub open spec fn identity_tail(url: Seq<char>) -> Option<Seq<char>> {
    if starts_with(url, "git@"@) {
        if first_index_of(url, ':') == url.len() {
            None
        } else {
            Some(url.subrange(first_index_of(url, ':') + 1, url.len() as int))
        }
    } else {
        Some(url)
    }
}

/// `s` without one trailing `.git`, if it ends in one.
pub open spec fn strip_git_suffix(s: Seq<char>) -> Seq<char> {
    if ends_with(s, ".git"@) {
        s.subrange(0, s.len() - ".git"@.len())
    } else {
        s
    }
}

/// The owner and repository name a remote URL points at: the last two
/// `/`-separated segments of the URL's path part, the repository name
/// without a trailing `.git`. `None` when the URL does not mention
/// github.com, has no path separator, or either segment is empty.
pub open spec fn parse_identity_spec(url: Seq<char>) -> Option<(Seq<char>, Seq<char>)> {
    if !contains_seq(url, "github.com"@) {
        None
    } else {
        match identity_tail(url) {
            None => None,
            Some(t) => {
                let k = last_index_of(t, '/');
                if k < 0 {
                    None
                } else {
                    let head = t.subrange(0, k);
                    let repo = strip_git_suffix(t.subrange(k + 1, t.len() as int));
                    let k2 = last_index_of(head, '/');
                    let owner = if k2 < 0 {
                        head
                    } else {
                        head.subrange(k2 + 1, head.len() as int)
                    };
                    if owner.len() == 0 || repo.len() == 0 {
                        None
                    } else {
                        Some((owner, repo))
                    }
                }
            },
        }
    }
}

/// Parse a remote URL into the repository identity it names.
pub fn parse_repo_identity(url: &str) -> (r: Option<RepoIdentity>)
    ensures
        match r {
            Some(id) => parse_identity_spec(url@) == Some((id.owner@, id.name@)),
            None => parse_identity_spec(url@) is None,
        },
{
    proof {
        reveal_strlit(".git");
    }
    if !str_contains(url, "github.com") {
        return None;
    }
    let n = url.unicode_len();
    let t_start: usize;
    if str_starts_with(url, "git@") {
        match str_find(url, ':') {
            None => {
                return None;
            },
            Some(j) => {
                t_start = j + 1;
            },
        }
    } else {
        t_start = 0;
    }
    proof {
        lemma_first_index_of(url@, ':');
    }
    let t = url.substring_char(t_start, n);
    assert(identity_tail(url@) == Some(t@));
    let tn = t.unicode_len();
    let k = match str_rfind(t, '/') {
        None => {
            return None;
        },
        Some(k) => k,
    };
    let head = t.substring_char(0, k);
    let repo0 = t.substring_char(k + 1, tn);
    let repo: &str = if str_ends_with(repo0, ".git") {
        repo0.substring_char(0, repo0.unicode_len() - 4)
    } else {
        repo0
    };
    let owner: &str = match str_rfind(head, '/') {
        None => head,
        Some(k2) => head.substring_char(k2 + 1, head.unicode_len()),
    };
    if owner.is_empty() || repo.is_empty() {
        return None;
    }
    Some(RepoIdentity { owner: owner.to_owned(), name: repo.to_owned() })
}

} // verus!
