//! The mailbox account types, the XOAUTH2 response, and the ordering of
//! message ids for newest-first traversal in fixed-size fetch batches.

use vstd::prelude::*;
use vstd::multiset::Multiset;
use vstd::string::StringExecFns;

verus! {

/// How the run logs in to the mail server.
#[derive(Clone, Copy, Debug, PartialEq, Eq, Structural)]
pub enum LoginMethod {
    OAuth2,
    Password,
}

/// A bearer-token account: the user and the exchanged access token.
#[derive(Debug)]
pub struct OAuth2 {
    pub user: String,
    pub access_token: String,
}

/// A password account.
#[derive(Debug)]
pub struct Password {
    pub user: String,
    pub password: String,
}

/// The mail server's address and port.
#[derive(Debug)]
pub struct Server {
    pub address: String,
    pub port: u16,
}

/// A failure while establishing the mail session.
#[derive(Clone, Copy, Debug, PartialEq, Eq, Structural)]
pub enum MailClientError {
    /// Authentication with the mail server failed.
    EstablishmentError,
    /// The token endpoint refused the refresh-token exchange.
    FailedToGetTokenError,
}

impl MailClientError {
    /// A short diagnostic name for the failure.
    pub fn describe(&self) -> (r: &'static str)
        ensures
            *self == MailClientError::EstablishmentError ==> r@ == "EstablishmentError"@,
            *self == MailClientError::FailedToGetTokenError ==> r@ == "FailedToGetTokenError"@,
    {
        match self {
            MailClientError::EstablishmentError => "EstablishmentError",
            MailClientError::FailedToGetTokenError => "FailedToGetTokenError",
        }
    }
}

impl OAuth2 {
    /// The XOAUTH2 initial client response for this account: the user and
    /// bearer token joined with the protocol's control bytes.
    pub fn xoauth2_response(&self) -> (r: String)
        ensures
            r@ == "user="@ + self.user@ + "\u{1}auth=Bearer "@ + self.access_token@ + "\u{1}\u{1}"@,
    {
        let mut s = String::from_str("user=");
        s.append(self.user.as_str());
        s.append("\u{1}auth=Bearer ");
        s.append(self.access_token.as_str());
        s.append("\u{1}\u{1}");
        proof {
            assert(s@ =~= "user="@ + self.user@ + "\u{1}auth=Bearer "@ + self.access_token@
                + "\u{1}\u{1}"@);
        }
        s
    }
}

/// The sequence is ordered largest-first.
pub open spec fn spec_sorted_descending(s: Seq<u32>) -> bool {
    forall|i: int, j: int| 0 <= i < j < s.len() ==> s[i] >= s[j]
}

/// Sort message ids largest-first, so the newest messages are inspected
/// first. The result holds exactly the ids given.
pub fn sort_ids_descending(ids: &Vec<u32>) -> (r: Vec<u32>)
    ensures
        spec_sorted_descending(r@),
        r@.to_multiset() == ids@.to_multiset(),
        r@.len() == ids@.len(),
{
    broadcast use vstd::seq_lib::group_to_multiset_ensures;

    let mut out: Vec<u32> = Vec::new();
    let mut k: usize = 0;
    while k < ids.len()
        invariant
            k <= ids@.len(),
            out@.len() == k,
            spec_sorted_descending(out@),
            out@.to_multiset() == ids@.subrange(0, k as int).to_multiset(),
        decreases ids@.len() - k,
    {
        let x = ids[k];
        let mut p: usize = 0;
        while p < out.len() && out[p] >= x
            invariant
                p <= out@.len(),
                forall|i: int| 0 <= i < p ==> out@[i] >= x,
            decreases out@.len() - p,
        {
            p = p + 1;
        }
        let ghost prev = out@;
        out.insert(p, x);
        proof {
            assert(out@ =~= prev.take(p as int).push(x) + prev.skip(p as int));
            lemma_insert_multiset(prev, p as int, x);
            ids@.subrange(0, k as int).to_multiset_ensures();
            assert(ids@.subrange(0, k as int).push(x).to_multiset() == ids@.subrange(
                0,
                k as int,
            ).to_multiset().insert(x));
            assert(ids@.subrange(0, k + 1) =~= ids@.subrange(0, k as int).push(x));
        }
        k = k + 1;
    }
    proof {
        assert(ids@.subrange(0, ids@.len() as int) =~= ids@);
    }
    out
}

/// Inserting a value anywhere in a sequence adds exactly it to the
/// sequence's multiset.
proof fn lemma_insert_multiset(s: Seq<u32>, p: int, x: u32)
    requires
        0 <= p <= s.len(),
    ensures
        s.insert(p, x).to_multiset() == s.to_multiset().insert(x),
{
    broadcast use vstd::seq_lib::group_to_multiset_ensures;

    assert(s.insert(p, x) =~= s.take(p) + seq![x] + s.skip(p));
    s.take(p).to_multiset_ensures();
    s.skip(p).to_multiset_ensures();
    vstd::seq_lib::lemma_multiset_commutative(s.take(p) + seq![x], s.skip(p));
    vstd::seq_lib::lemma_multiset_commutative(s.take(p), seq![x]);
    assert(seq![x].to_multiset() =~= Multiset::empty().insert(x));
    assert(s =~= s.take(p) + s.skip(p));
    vstd::seq_lib::lemma_multiset_commutative(s.take(p), s.skip(p));
}

/// The views of a sequence of id batches.
pub open spec fn spec_batch_views(s: Seq<Vec<u32>>) -> Seq<Seq<u32>> {
    s.map_values(|c: Vec<u32>| c@)
}

/// Split the ids into fetch batches: every batch holds `size` ids except a
/// shorter final one, no batch is empty, and joining the batches restores
/// the ids in order.
pub fn chunk_ids(ids: &Vec<u32>, size: usize) -> (r: Vec<Vec<u32>>)
    requires
        size >= 1,
    ensures
        spec_batch_views(r@).flatten() == ids@,
        forall|i: int| 0 <= i < r@.len() ==> 1 <= (#[trigger] r@[i])@.len() <= size,
        forall|i: int| 0 <= i < r@.len() - 1 ==> (#[trigger] r@[i])@.len() == size,
{
    let n = ids.len();
    let mut out: Vec<Vec<u32>> = Vec::new();
    let mut k: usize = 0;
    while k < n
        invariant
            n == ids@.len(),
            k <= n,
            size >= 1,
            spec_batch_views(out@).flatten() == ids@.subrange(0, k as int),
            forall|i: int| 0 <= i < out@.len() ==> 1 <= (#[trigger] out@[i])@.len() <= size,
            k < ids@.len() ==> forall|i: int| 0 <= i < out@.len() ==> (#[trigger] out@[i])@.len()
                == size,
            forall|i: int| 0 <= i < out@.len() - 1 ==> (#[trigger] out@[i])@.len() == size,
        decreases ids@.len() - k,
    {
        let mut chunk: Vec<u32> = Vec::new();
        let mut j: usize = 0;
        while j < size && k + j < n
            invariant
                n == ids@.len(),
                j <= size,
                k + j <= n,
                chunk@.len() == j,
                chunk@ == ids@.subrange(k as int, k + j),
            decreases size - j,
        {
            let x = ids[k + j];
            chunk.push(x);
            proof {
                assert(chunk@ =~= ids@.subrange(k as int, k + j + 1));
            }
            j = j + 1;
        }
        assert(j >= 1);
        let ghost prev = out@;
        out.push(chunk);
        proof {
            broadcast use Seq::lemma_flatten_push;

            assert(spec_batch_views(out@) =~= spec_batch_views(prev).push(chunk@));
            assert(ids@.subrange(0, k as int) + ids@.subrange(k as int, k + j) =~= ids@.subrange(
                0,
                k + j,
            ));
            assert(spec_batch_views(out@).flatten() =~= ids@.subrange(0, k + j));
        }
        k = k + j;
    }
    proof {
        assert(ids@.subrange(0, ids@.len() as int) =~= ids@);
    }
    out
}

} // verus!
