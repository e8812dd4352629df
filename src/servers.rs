//! Operations on the server list: keep, drop, add and look up records by
//! identifier.
use crate::types::{request_of, response_of, ServerRequest, ServerResponse};
use vstd::prelude::*;

verus! {

/// The records of `s` whose identifier is not `id`, in their order.
pub open spec fn without_id(s: Seq<ServerResponse>, id: Seq<char>) -> Seq<ServerResponse>
    decreases s.len(),
{
    if s.len() == 0 {
        s
    } else {
        let rest = without_id(s.drop_last(), id);
        if s.last().id@ == id {
            rest
        } else {
            rest.push(s.last())
        }
    }
}

/// How many records of `s` have the identifier `id`.
pub open spec fn count_id(s: Seq<ServerResponse>, id: Seq<char>) -> nat
    decreases s.len(),
{
    if s.len() == 0 {
        0
    } else {
        count_id(s.drop_last(), id) + if s.last().id@ == id {
            1nat
        } else {
            0nat
        }
    }
}

/// Whether some record of `s` has the identifier `id`.
pub open spec fn has_id(s: Seq<ServerResponse>, id: Seq<char>) -> bool {
    exists|i: int| 0 <= i < s.len() && (#[trigger] s[i]).id@ == id
}

/// No two records of `s` share an identifier.
pub open spec fn ids_unique(s: Seq<ServerResponse>) -> bool {
    forall|i: int, j: int|
        0 <= i < s.len() && 0 <= j < s.len() && (#[trigger] s[i]).id@ == (#[trigger] s[j]).id@
            ==> i == j
}

/// The list after adding `rec`: every record with its identifier dropped,
/// then `rec` appended.
pub open spec fn upserted(s: Seq<ServerResponse>, rec: ServerResponse) -> Seq<ServerResponse> {
    without_id(s, rec.id@).push(rec)
}

/// The records as request records, in order.
pub open spec fn as_requests(s: Seq<ServerResponse>) -> Seq<ServerRequest> {
    s.map_values(|r: ServerResponse| request_of(r))
}

/// Dropping the records with an identifier removes exactly as many records as
/// carry it.
pub proof fn lemma_without_id_len(s: Seq<ServerResponse>, id: Seq<char>)
    ensures
        without_id(s, id).len() + count_id(s, id) == s.len(),
    decreases s.len(),
{
    if s.len() > 0 {
        lemma_without_id_len(s.drop_last(), id);
    }
}

/// Some record carries an identifier exactly when its count is not zero.
pub proof fn lemma_count_has_id(s: Seq<ServerResponse>, id: Seq<char>)
    ensures
        count_id(s, id) > 0 <==> has_id(s, id),
    decreases s.len(),
{
    if s.len() > 0 {
        let p = s.drop_last();
        lemma_count_has_id(p, id);
        if has_id(p, id) {
            let i = choose|i: int| 0 <= i < p.len() && (#[trigger] p[i]).id@ == id;
            assert(s[i].id@ == id);
        }
        if has_id(s, id) && s.last().id@ != id {
            let i = choose|i: int| 0 <= i < s.len() && (#[trigger] s[i]).id@ == id;
            assert(p[i].id@ == id);
        }
        if s.last().id@ == id {
            assert(s[s.len() - 1].id@ == id);
        }
    }
}

/// No record that is left carries the identifier that was dropped.
pub proof fn lemma_without_id_drops(s: Seq<ServerResponse>, id: Seq<char>)
    ensures
        count_id(without_id(s, id), id) == 0,
    decreases s.len(),
{
    if s.len() > 0 {
        let p = s.drop_last();
        lemma_without_id_drops(p, id);
        if s.last().id@ != id {
            assert(without_id(s, id).drop_last() =~= without_id(p, id));
        }
    }
}

/// In a list with unique identifiers, an identifier that occurs occurs once.
pub proof fn lemma_unique_count(s: Seq<ServerResponse>, id: Seq<char>)
    requires
        ids_unique(s),
        has_id(s, id),
    ensures
        count_id(s, id) == 1,
    decreases s.len(),
{
    let p = s.drop_last();
    assert(ids_unique(p)) by {
        assert forall|i: int, j: int|
            0 <= i < p.len() && 0 <= j < p.len() && (#[trigger] p[i]).id@ == (#[trigger] p[j]).id@
            implies i == j by {
            assert(s[i] == p[i] && s[j] == p[j]);
        }
    }
    if s.last().id@ == id {
        if has_id(p, id) {
            let i = choose|i: int| 0 <= i < p.len() && (#[trigger] p[i]).id@ == id;
            assert(s[i].id@ == s[s.len() - 1].id@);
        }
        lemma_count_has_id(p, id);
    } else {
        let i = choose|i: int| 0 <= i < s.len() && (#[trigger] s[i]).id@ == id;
        assert(p[i].id@ == id);
        lemma_unique_count(p, id);
    }
}

/// Adding a record whose identifier is already in a list with unique
/// identifiers replaces that record: the length stays, the added record is
/// the one record with that identifier, it stands last, and the list keeps its
/// identifiers unique.
pub proof fn lemma_upsert_replaces(s: Seq<ServerResponse>, rec: ServerResponse)
    requires
        ids_unique(s),
        has_id(s, rec.id@),
    ensures
        upserted(s, rec).len() == s.len(),
        count_id(upserted(s, rec), rec.id@) == 1,
        upserted(s, rec).last() == rec,
{
    lemma_unique_count(s, rec.id@);
    lemma_without_id_len(s, rec.id@);
    lemma_without_id_drops(s, rec.id@);
    assert(upserted(s, rec).drop_last() =~= without_id(s, rec.id@));
}

/// Removing an identifier that no record carries leaves the list as it was.
pub proof fn lemma_remove_absent(s: Seq<ServerResponse>, id: Seq<char>)
    requires
        !has_id(s, id),
    ensures
        without_id(s, id) == s,
    decreases s.len(),
{
    if s.len() > 0 {
        let p = s.drop_last();
        if has_id(p, id) {
            let i = choose|i: int| 0 <= i < p.len() && (#[trigger] p[i]).id@ == id;
            assert(s[i].id@ == id);
        }
        assert(s[s.len() - 1] == s.last());
        lemma_remove_absent(p, id);
        assert(p.push(s.last()) =~= s);
    }
}

/// Keeps the records whose identifier is not `id`, in their order.
pub fn retain_other_ids(servers: Vec<ServerResponse>, id: &String) -> (r: Vec<ServerResponse>)
    ensures
        r@ == without_id(servers@, id@),
{
    let mut input = servers;
    let ghost orig = input@;
    let mut out: Vec<ServerResponse> = Vec::new();
    let ghost mut k: int = 0;
    while input.len() > 0
        invariant
            orig == servers@,
            0 <= k,
            k + input@.len() == orig.len(),
            input@ == orig.subrange(k, orig.len() as int),
            out@ == without_id(orig.take(k), id@),
        decreases input.len(),
    {
        let s = input.remove(0);
        assert(s == orig[k]);
        assert(orig.take(k + 1).drop_last() =~= orig.take(k));
        if s.id != *id {
            out.push(s);
        }
        proof {
            k = k + 1;
        }
    }
    assert(orig.take(k) =~= orig);
    out
}

/// Whether some record has the identifier `id`.
pub fn contains_id(servers: &Vec<ServerResponse>, id: &String) -> (r: bool)
    ensures
        r == has_id(servers@, id@),
{
    let mut i: usize = 0;
    while i < servers.len()
        invariant
            i <= servers@.len(),
            forall|j: int| 0 <= j < i ==> (#[trigger] servers@[j]).id@ != id@,
        decreases servers.len() - i,
    {
        if servers[i].id == *id {
            return true;
        }
        i = i + 1;
    }
    false
}

/// The records as request records, in order.
pub fn to_requests(servers: Vec<ServerResponse>) -> (r: Vec<ServerRequest>)
    ensures
        r@ == as_requests(servers@),
{
    let mut input = servers;
    let ghost orig = input@;
    let mut out: Vec<ServerRequest> = Vec::new();
    while input.len() > 0
        invariant
            orig == servers@,
            out@.len() + input@.len() == orig.len(),
            input@ == orig.subrange(out@.len() as int, orig.len() as int),
            out@ == as_requests(orig.take(out@.len() as int)),
        decreases input.len(),
    {
        let ghost k = out@.len() as int;
        let s = input.remove(0);
        assert(s == orig[k]);
        out.push(ServerRequest::from(s));
        assert(out@ =~= as_requests(orig.take(k + 1)));
    }
    assert(orig.take(orig.len() as int) =~= orig);
    out
}

/// Adds `server` to the list, dropping first every record with its identifier.
pub fn upsert_server(servers: Vec<ServerResponse>, server: ServerRequest) -> (r: Vec<ServerResponse>)
    ensures
        r@ == upserted(servers@, response_of(server)),
{
    let rec = ServerResponse::from(server);
    let mut kept = retain_other_ids(servers, &rec.id);
    kept.push(rec);
    kept
}

} // verus!
