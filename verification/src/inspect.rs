//! Classification of repository-inspector responses: every remote lookup
//! ends in a plain status code (or a transport failure), and the rules read
//! only the classified result.

use vstd::prelude::*;

verus! {

/// What a presence lookup of one file found. A transport failure, where no
/// status code came back at all, is `Error`.
#[derive(Clone, Copy, PartialEq, Eq, Structural, Debug)]
pub enum FileCheckResult {
    Found,
    AccessDenied,
    AccessForbidden,
    NotFound,
    Error,
}

/// What a content lookup of one file found: the bytes of the file on
/// success, otherwise the same classification as a presence lookup.
#[derive(Debug)]
pub enum GrabFileResult {
    File(Vec<u8>),
    AccessDenied,
    AccessForbidden,
    NotFound,
    Error,
}

/// A status code counts as success exactly when it lies in the 2xx range.
pub open spec fn is_success_status(status: u16) -> bool {
    200 <= status < 300
}

/// How one lookup status is classified: success means found, 401 means the
/// caller was not authenticated, 403 means the caller was refused, and any
/// other status counts as not found. No status at all is a transport error.
pub open spec fn spec_file_check(status: Option<u16>) -> FileCheckResult {
    match status {
        Option::None => FileCheckResult::Error,
        Option::Some(s) => if is_success_status(s) {
            FileCheckResult::Found
        } else if s == 401 {
            FileCheckResult::AccessDenied
        } else if s == 403 {
            FileCheckResult::AccessForbidden
        } else {
            FileCheckResult::NotFound
        },
    }
}

/// Classifies the status of a file presence lookup; `None` stands for a
/// transport failure that produced no status.
pub fn file_check(status: Option<u16>) -> (r: FileCheckResult)
    ensures
        r == spec_file_check(status),
{
    match status {
        Option::None => FileCheckResult::Error,
        Option::Some(s) => if 200 <= s && s < 300 {
            FileCheckResult::Found
        } else if s == 401 {
            FileCheckResult::AccessDenied
        } else if s == 403 {
            FileCheckResult::AccessForbidden
        } else {
            FileCheckResult::NotFound
        },
    }
}

/// Classifies the outcome of a file content lookup; on success the body
/// bytes are kept, and the status classification is that of `file_check`.
pub fn grab_file(response: Option<(u16, Vec<u8>)>) -> (r: GrabFileResult)
    ensures
        match response {
            Option::None => r is Error,
            Option::Some(p) => {
                let s = p.0;
                if is_success_status(s) {
                    r matches GrabFileResult::File(b) && b@ == p.1@
                } else if s == 401 {
                    r is AccessDenied
                } else if s == 403 {
                    r is AccessForbidden
                } else {
                    r is NotFound
                }
            },
        },
{
    match response {
        Option::None => GrabFileResult::Error,
        Option::Some((s, body)) => if 200 <= s && s < 300 {
            GrabFileResult::File(body)
        } else if s == 401 {
            GrabFileResult::AccessDenied
        } else if s == 403 {
            GrabFileResult::AccessForbidden
        } else {
            GrabFileResult::NotFound
        },
    }
}

/// `repository` names the repository as `owner/name`; this holds when it
/// begins with the owner and a slash.
pub open spec fn has_owner_prefix(owner: Seq<char>, repository: Seq<char>) -> bool {
    repository.len() > owner.len() && repository.take(owner.len() as int + 1) == owner + "/"@
}

/// Splits the plain repository name off an `owner/name` pair, as the
/// inspector addresses a repository by owner and name separately. Returns
/// nothing when `repository` does not begin with `owner` and a slash.
pub fn repo_short_name(owner: &str, repository: &str) -> (r: Option<String>)
    ensures
        r is Some <==> has_owner_prefix(owner@, repository@),
        r matches Some(name) ==> name@ == repository@.skip(owner@.len() as int + 1)
            && repository@ == owner@ + "/"@ + name@,
{
    proof {
        reveal_strlit("/");
    }
    let no = owner.unicode_len();
    let nr = repository.unicode_len();
    if nr <= no {
        proof {
            if has_owner_prefix(owner@, repository@) {
                assert(repository@.len() > owner@.len());
            }
        }
        return None;
    }
    let mut i: usize = 0;
    while i < no
        invariant
            i <= no,
            no == owner@.len(),
            nr == repository@.len(),
            nr > no,
            forall|j: int| 0 <= j < i ==> repository@[j] == owner@[j],
        decreases no - i,
    {
        let co = owner.get_char(i);
        let cr = repository.get_char(i);
        if co as u32 != cr as u32 {
            proof {
                if has_owner_prefix(owner@, repository@) {
                    assert(repository@.take(owner@.len() as int + 1)[i as int] == (owner@ + "/"@)[i as int]);
                }
            }
            return None;
        }
        i = i + 1;
    }
    let slash = repository.get_char(no);
    if slash as u32 != '/' as u32 {
        proof {
            if has_owner_prefix(owner@, repository@) {
                assert(repository@.take(owner@.len() as int + 1)[no as int] == (owner@ + "/"@)[no as int]);
            }
        }
        return None;
    }
    let name = repository.substring_char(no + 1, nr);
    proof {
        assert(repository@.take(owner@.len() as int + 1) =~= owner@ + "/"@);
        assert(repository@ =~= owner@ + "/"@ + repository@.skip(owner@.len() as int + 1));
    }
    Some(name.to_owned())
}

} // verus!
