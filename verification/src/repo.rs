//! Ownership of the engine's handles.
//!
//! The engine hands out two kinds of handle: a repository, opened from a
//! path, and a commit, looked up from a repository. Each must be freed
//! exactly once, and a commit must never outlive the repository that
//! produced it. [`Repository`] keeps a ledger of the commits it has
//! produced: [`Repository::find_commit`] records a live commit,
//! [`Repository::free_commit`] consumes the [`Commit`] value and retires
//! its ledger entry, and [`Repository::close`] consumes the repository
//! and demands a ledger with no live entry — so commit-before-repository
//! is the only release order a verified caller can write, and each value,
//! being consumed, is released at most once.
//!
//! Every constructor checks the engine's status through the error
//! boundary first and records a handle only on success, so no value ever
//! wraps a handle the engine refused to produce.

use crate::errors::{check, check_model, GitError, GitResult, LastError};
use crate::oid::Oid;
use crate::text::decode_c_field;
use vstd::prelude::*;
use vstd::utf8::{decode_utf8, valid_utf8};

verus! {

/// True when the ledger holds a live commit under this id.
pub open spec fn live_at(commits: Seq<bool>, id: int) -> bool {
    0 <= id < commits.len() && commits[id]
}

/// How many ledger entries are still live.
pub open spec fn count_live(commits: Seq<bool>) -> nat
    decreases commits.len(),
{
    if commits.len() == 0 {
        0
    } else {
        count_live(commits.drop_last()) + (if commits.last() {
            1nat
        } else {
            0nat
        })
    }
}

/// What the engine exposed of a freshly looked-up commit: its message
/// and its author's name and email, each a possibly-absent (null in the
/// engine's memory) nul-terminated text field, copied out as bytes.
pub struct CommitData {
    /// The commit's free-text message, absent where the engine holds none.
    pub message: Option<Vec<u8>>,
    /// The author's recorded name, absent where the engine holds none.
    pub author_name: Option<Vec<u8>>,
    /// The author's recorded email, absent where the engine holds none.
    pub author_email: Option<Vec<u8>>,
}

/// An open connection to a repository's object store: the exclusive
/// owner of the engine's repository handle and the ledger of every
/// commit handle produced from it.
#[derive(Debug)]
pub struct Repository {
    commits_live: Vec<bool>,
}

/// A single versioned-history node, produced by and bounded by a
/// [`Repository`]. Owns its ledger entry: it is consumed, exactly once,
/// by [`Repository::free_commit`].
#[derive(Debug)]
pub struct Commit {
    id: usize,
    message: Option<Vec<u8>>,
    author_name: Option<Vec<u8>>,
    author_email: Option<Vec<u8>>,
}

/// A commit author's recorded identity: two possibly-absent text fields
/// read from the commit's memory.
pub struct Signature {
    name: Option<Vec<u8>>,
    email: Option<Vec<u8>>,
}

impl Repository {
    /// The ledger: one entry per commit ever produced, true while live.
    pub closed spec fn commits(&self) -> Seq<bool> {
        self.commits_live@
    }

    /// True when this repository's ledger holds `c` as live.
    pub open spec fn owns(&self, c: &Commit) -> bool {
        live_at(self.commits(), c.id_spec())
    }

    /// True when no commit produced here is still live, the one state in
    /// which the repository handle may be released.
    pub open spec fn can_close(&self) -> bool {
        forall|i: int| !live_at(self.commits(), i)
    }

    /// Translates the engine's reply to "open the repository at a path".
    /// An accepted status (zero or more) gives the owning value for the
    /// fresh handle, with an empty ledger; a refused status gives the
    /// translated error and owns nothing, so a failed open leaves no
    /// handle behind. `last` is the last-error slot, copied immediately
    /// after the native call.
    pub fn open(status: i32, last: LastError) -> (r: GitResult<Repository>)
        ensures
            r is Ok <==> status >= 0,
            r matches Ok(repo) ==> repo.commits() == Seq::<bool>::empty(),
            r matches Err(e) ==> Err::<i32, GitError>(e) == check_model(status, last),
    {
        match check(status, last) {
            Ok(_) => Ok(Repository { commits_live: Vec::new() }),
            Err(e) => Err(e),
        }
    }

    /// Translates the engine's reply to "resolve a reference name to the
    /// hash it points at". The caller encoded the name through
    /// [`crate::to_nul_terminated`] (so an embedded terminator already
    /// failed there), handed it to the engine, and passes the status and
    /// the hash bytes the engine wrote back. An accepted status gives
    /// that hash as an [`Oid`]; a refused one (an unknown reference, a
    /// corrupt repository) gives the translated error with the engine's
    /// class preserved. Takes the repository read-only: resolving a name
    /// changes nothing it owns.
    pub fn reference_name_to_oid(&self, status: i32, last: LastError, hash: [u8; 20]) -> (r:
        GitResult<Oid>)
        ensures
            r is Ok <==> status >= 0,
            r matches Ok(oid) ==> oid@ == hash@,
            r matches Err(e) ==> Err::<i32, GitError>(e) == check_model(status, last),
    {
        match check(status, last) {
            Ok(_) => Ok(Oid::from_bytes(hash)),
            Err(e) => Err(e),
        }
    }

    /// Translates the engine's reply to "look up the commit for a hash".
    /// An accepted status transfers ownership of the produced handle to a
    /// fresh [`Commit`] carrying the fields the engine exposed, recorded
    /// live in this repository's ledger; a refused status gives the
    /// translated error and records nothing.
    pub fn find_commit(&mut self, status: i32, last: LastError, data: CommitData) -> (r: GitResult<
        Commit,
    >)
        ensures
            r is Ok <==> status >= 0,
            r matches Ok(c) ==> {
                &&& c.id_spec() == old(self).commits().len()
                &&& final(self).commits() == old(self).commits().push(true)
                &&& final(self).owns(&c)
                &&& c.message_bytes() == data.message.deep_view()
                &&& c.author_name_bytes() == data.author_name.deep_view()
                &&& c.author_email_bytes() == data.author_email.deep_view()
            },
            r is Err ==> *final(self) == *old(self),
            r matches Err(e) ==> Err::<i32, GitError>(e) == check_model(status, last),
    {
        match check(status, last) {
            Ok(_) => {
                let id: usize = self.commits_live.len();
                self.commits_live.push(true);
                Ok(
                    Commit {
                        id,
                        message: data.message,
                        author_name: data.author_name,
                        author_email: data.author_email,
                    },
                )
            },
            Err(e) => Err(e),
        }
    }

    /// True when this repository's ledger holds `c` as live; the check a
    /// caller owes before [`Repository::free_commit`].
    pub fn owns_commit(&self, c: &Commit) -> (b: bool)
        ensures
            b == self.owns(c),
    {
        c.id < self.commits_live.len() && self.commits_live[c.id]
    }

    /// Consumes the commit and retires its ledger entry. The caller frees
    /// the engine's commit handle in the same step; since the value is
    /// consumed, no second release of the same commit can be written.
    pub fn free_commit(&mut self, c: Commit)
        requires
            old(self).owns(&c),
        ensures
            final(self).commits() == old(self).commits().update(c.id_spec(), false),
            !live_at(final(self).commits(), c.id_spec()),
    {
        self.commits_live.set(c.id, false);
    }

    /// True when a commit produced here is still live, in which case the
    /// repository handle must not be released yet.
    pub fn has_live_commits(&self) -> (b: bool)
        ensures
            b == !self.can_close(),
    {
        let n: usize = self.commits_live.len();
        let mut i: usize = 0;
        while i < n
            invariant
                n == self.commits().len(),
                i <= n,
                forall|j: int| 0 <= j < i ==> !self.commits()[j],
            decreases n - i,
        {
            if self.commits_live[i] {
                proof {
                    assert(live_at(self.commits(), i as int));
                }
                return true;
            }
            i = i + 1;
        }
        false
    }

    /// How many commits produced here are still live: the leak check, zero
    /// once every commit has been freed.
    pub fn live_commit_count(&self) -> (n: usize)
        ensures
            n == count_live(self.commits()),
    {
        let len: usize = self.commits_live.len();
        let mut n: usize = 0;
        let mut i: usize = 0;
        while i < len
            invariant
                len == self.commits().len(),
                i <= len,
                n <= i,
                n == count_live(self.commits().take(i as int)),
            decreases len - i,
        {
            proof {
                assert(self.commits().take(i + 1int).drop_last() == self.commits().take(i as int));
                assert(self.commits().take(i + 1int).last() == self.commits()[i as int]);
            }
            if self.commits_live[i] {
                n = n + 1;
            }
            i = i + 1;
        }
        proof {
            assert(self.commits().take(len as int) == self.commits());
        }
        n
    }

    /// Consumes the repository: the model of its destruction, after which
    /// the caller frees the engine's repository handle, exactly once. A
    /// live commit forbids this — commits are released strictly first.
    pub fn close(self)
        requires
            self.can_close(),
    {
    }
}

impl Commit {
    /// This commit's ledger entry in the repository that produced it.
    pub closed spec fn id_spec(&self) -> int {
        self.id as int
    }

    /// The commit's message field as the engine exposed it.
    pub closed spec fn message_bytes(&self) -> Option<Seq<u8>> {
        self.message.deep_view()
    }

    /// The author-name field as the engine exposed it.
    pub closed spec fn author_name_bytes(&self) -> Option<Seq<u8>> {
        self.author_name.deep_view()
    }

    /// The author-email field as the engine exposed it.
    pub closed spec fn author_email_bytes(&self) -> Option<Seq<u8>> {
        self.author_email.deep_view()
    }

    /// The author's recorded identity, read from this commit's fields.
    pub fn author(&self) -> (s: Signature)
        ensures
            s.name_bytes() == self.author_name_bytes(),
            s.email_bytes() == self.author_email_bytes(),
    {
        Signature {
            name: copy_field(&self.author_name),
            email: copy_field(&self.author_email),
        }
    }

    /// The commit's free-text message: `Some` exactly when the engine
    /// holds the field and its bytes are valid UTF-8, decoded then; `None`
    /// both where the field is absent and where its bytes do not decode,
    /// undistinguished.
    pub fn message(&self) -> (r: Option<String>)
        ensures
            r is Some <==> (self.message_bytes() matches Some(b) && valid_utf8(b)),
            r matches Some(s) ==> self.message_bytes() matches Some(b) && s@ == decode_utf8(b),
    {
        decode_c_field(&self.message)
    }
}

impl Signature {
    /// The author-name field as the engine exposed it.
    pub closed spec fn name_bytes(&self) -> Option<Seq<u8>> {
        self.name.deep_view()
    }

    /// The author-email field as the engine exposed it.
    pub closed spec fn email_bytes(&self) -> Option<Seq<u8>> {
        self.email.deep_view()
    }

    /// The author's name: `Some` exactly when the engine holds the field
    /// and its bytes are valid UTF-8, decoded then; never a default or
    /// sentinel string in either failure's place.
    pub fn name(&self) -> (r: Option<String>)
        ensures
            r is Some <==> (self.name_bytes() matches Some(b) && valid_utf8(b)),
            r matches Some(s) ==> self.name_bytes() matches Some(b) && s@ == decode_utf8(b),
    {
        decode_c_field(&self.name)
    }

    /// The author's email, under the same contract as
    /// [`Signature::name`].
    pub fn email(&self) -> (r: Option<String>)
        ensures
            r is Some <==> (self.email_bytes() matches Some(b) && valid_utf8(b)),
            r matches Some(s) ==> self.email_bytes() matches Some(b) && s@ == decode_utf8(b),
    {
        decode_c_field(&self.email)
    }
}

/// Copies a possibly-absent text field.
fn copy_field(field: &Option<Vec<u8>>) -> (r: Option<Vec<u8>>)
    ensures
        r.deep_view() == field.deep_view(),
{
    match field {
        None => None,
        Some(v) => Some(copy_bytes(v)),
    }
}

/// Copies a byte buffer.
fn copy_bytes(v: &Vec<u8>) -> (r: Vec<u8>)
    ensures
        r@ == v@,
{
    let n: usize = v.len();
    let mut out: Vec<u8> = Vec::new();
    let mut i: usize = 0;
    while i < n
        invariant
            n == v@.len(),
            i <= n,
            out@ == v@.take(i as int),
        decreases n - i,
    {
        out.push(v[i]);
        proof {
            assert(v@.take(i + 1int) == v@.take(i as int).push(v@[i as int]));
        }
        i = i + 1;
    }
    proof {
        assert(v@.take(n as int) == v@);
    }
    out
}

/// Law: a commit still live in a repository's ledger forbids closing
/// that repository — releasing the commit first is the only order the
/// contracts of [`Repository::free_commit`] and [`Repository::close`]
/// admit, so no release order can leave a commit behind its repository.
pub proof fn lemma_release_order(r: &Repository, c: &Commit)
    requires
        r.owns(c),
    ensures
        !r.can_close(),
{
}

/// Law: once a ledger entry is retired it is not live, so a commit
/// already freed can never satisfy [`Repository::free_commit`]'s
/// precondition again: each commit handle is released exactly once.
pub proof fn lemma_free_exactly_once(commits: Seq<bool>, id: int)
    requires
        0 <= id < commits.len(),
    ensures
        !live_at(commits.update(id, false), id),
{
}

/// Law: a session whose native calls are all accepted fails at no stage
/// of the error boundary: an accepted status at open, at reference
/// resolution and at commit lookup forces [`check_model`] — through which
/// [`Repository::open`], [`Repository::reference_name_to_oid`] and
/// [`Repository::find_commit`] state their results — to a success at
/// every stage; the author and message of the commit those calls produce
/// are then read by total operations with no failure path at all.
pub proof fn lemma_accepted_session(
    open_status: i32,
    open_last: LastError,
    resolve_status: i32,
    resolve_last: LastError,
    lookup_status: i32,
    lookup_last: LastError,
)
    requires
        open_status >= 0,
        resolve_status >= 0,
        lookup_status >= 0,
    ensures
        check_model(open_status, open_last) is Ok,
        check_model(resolve_status, resolve_last) is Ok,
        check_model(lookup_status, lookup_last) is Ok,
{
}

} // verus!
