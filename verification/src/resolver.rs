//! The name resolver: given the reference records of known addresses and NFT
//! contracts, finds a display name and a notify target for an event. Address
//! comparisons are case-insensitive (both sides are lower-cased); the network
//! is matched exactly. The first matching record wins.
//!
//! The backing store itself is an external collaborator: the caller fetches
//! its rows and hands them in as plain records, so the matching rules proved
//! here are the ones the relay actually runs.

use vstd::prelude::*;
use crate::text::eq_lower;
use crate::text::lower;

verus! {

/// A reference record for a watched account or contract address.
#[derive(Debug, Clone)]
pub struct AddressRecord {
    pub network: String,
    pub address: String,
    pub name: String,
    pub notify_url: String,
}

/// A reference record for a watched NFT contract.
#[derive(Debug, Clone)]
pub struct NftRecord {
    pub network: String,
    pub contract_address: String,
    pub name: String,
    pub notify_url: String,
}

/// A successful resolution: the display name to show and the URL the
/// notification is delivered to.
#[derive(Debug, Clone)]
pub struct ResolvedIdentity {
    pub display_name: String,
    pub notify_target: String,
}

/// Whether an address record answers a query: same network, and its stored
/// address equals either queried address once all are lower-cased.
pub open spec fn address_record_matches(
    rec: AddressRecord,
    network: Seq<char>,
    from: Seq<char>,
    to: Seq<char>,
) -> bool {
    &&& rec.network@ == network
    &&& (lower(rec.address@) == lower(from) || lower(rec.address@) == lower(to))
}

/// Whether an NFT record answers a query: same network, and its stored
/// contract address equals the queried one once both are lower-cased.
pub open spec fn nft_record_matches(
    rec: NftRecord,
    network: Seq<char>,
    contract: Seq<char>,
) -> bool {
    &&& rec.network@ == network
    &&& lower(rec.contract_address@) == lower(contract)
}

/// The first address record that answers a query, if any.
pub open spec fn spec_get_address(
    records: Seq<AddressRecord>,
    network: Seq<char>,
    from: Seq<char>,
    to: Seq<char>,
) -> Option<AddressRecord>
    decreases records.len(),
{
    if records.len() == 0 {
        None
    } else if address_record_matches(records[0], network, from, to) {
        Some(records[0])
    } else {
        spec_get_address(records.drop_first(), network, from, to)
    }
}

/// The first NFT record that answers a query, if any.
pub open spec fn spec_get_nft(
    records: Seq<NftRecord>,
    network: Seq<char>,
    contract: Seq<char>,
) -> Option<NftRecord>
    decreases records.len(),
{
    if records.len() == 0 {
        None
    } else if nft_record_matches(records[0], network, contract) {
        Some(records[0])
    } else {
        spec_get_nft(records.drop_first(), network, contract)
    }
}

proof fn lemma_get_address_skip(
    records: Seq<AddressRecord>,
    network: Seq<char>,
    from: Seq<char>,
    to: Seq<char>,
    i: int,
)
    requires
        0 <= i <= records.len(),
        forall|j: int| 0 <= j < i ==> !address_record_matches(records[j], network, from, to),
    ensures
        spec_get_address(records, network, from, to) == spec_get_address(
            records.skip(i),
            network,
            from,
            to,
        ),
    decreases i,
{
    if i > 0 {
        let rest = records.drop_first();
        assert(forall|j: int|
            0 <= j < i - 1 ==> !address_record_matches(rest[j], network, from, to));
        lemma_get_address_skip(rest, network, from, to, i - 1);
        assert(rest.skip(i - 1) =~= records.skip(i));
    } else {
        assert(records.skip(0) =~= records);
    }
}

proof fn lemma_get_nft_skip(
    records: Seq<NftRecord>,
    network: Seq<char>,
    contract: Seq<char>,
    i: int,
)
    requires
        0 <= i <= records.len(),
        forall|j: int| 0 <= j < i ==> !nft_record_matches(records[j], network, contract),
    ensures
        spec_get_nft(records, network, contract) == spec_get_nft(
            records.skip(i),
            network,
            contract,
        ),
    decreases i,
{
    if i > 0 {
        let rest = records.drop_first();
        assert(forall|j: int| 0 <= j < i - 1 ==> !nft_record_matches(rest[j], network, contract));
        lemma_get_nft_skip(rest, network, contract, i - 1);
        assert(rest.skip(i - 1) =~= records.skip(i));
    } else {
        assert(records.skip(0) =~= records);
    }
}

/// Resolution is case-insensitive in the queried addresses: two queries whose
/// from- and to-addresses agree once lower-cased pick the same record.
pub proof fn lemma_get_address_case_insensitive(
    records: Seq<AddressRecord>,
    network: Seq<char>,
    from1: Seq<char>,
    to1: Seq<char>,
    from2: Seq<char>,
    to2: Seq<char>,
)
    requires
        lower(from1) == lower(from2),
        lower(to1) == lower(to2),
    ensures
        spec_get_address(records, network, from1, to1) == spec_get_address(
            records,
            network,
            from2,
            to2,
        ),
    decreases records.len(),
{
    if records.len() > 0 {
        lemma_get_address_case_insensitive(
            records.drop_first(),
            network,
            from1,
            to1,
            from2,
            to2,
        );
    }
}

/// Lower-casing the queried addresses up front changes nothing: a query
/// already in normal form picks the same record as the original query.
pub proof fn lemma_get_address_normalized(
    records: Seq<AddressRecord>,
    network: Seq<char>,
    from: Seq<char>,
    to: Seq<char>,
)
    ensures
        spec_get_address(records, network, lower(from), lower(to)) == spec_get_address(
            records,
            network,
            from,
            to,
        ),
{
    crate::text::lemma_lower_idempotent(from);
    crate::text::lemma_lower_idempotent(to);
    lemma_get_address_case_insensitive(records, network, lower(from), lower(to), from, to);
}

/// NFT resolution is case-insensitive in the queried contract address.
pub proof fn lemma_get_nft_case_insensitive(
    records: Seq<NftRecord>,
    network: Seq<char>,
    contract1: Seq<char>,
    contract2: Seq<char>,
)
    requires
        lower(contract1) == lower(contract2),
    ensures
        spec_get_nft(records, network, contract1) == spec_get_nft(records, network, contract2),
    decreases records.len(),
{
    if records.len() > 0 {
        lemma_get_nft_case_insensitive(records.drop_first(), network, contract1, contract2);
    }
}

/// Lower-casing the queried contract address up front changes nothing.
pub proof fn lemma_get_nft_normalized(
    records: Seq<NftRecord>,
    network: Seq<char>,
    contract: Seq<char>,
)
    ensures
        spec_get_nft(records, network, lower(contract)) == spec_get_nft(
            records,
            network,
            contract,
        ),
{
    crate::text::lemma_lower_idempotent(contract);
    lemma_get_nft_case_insensitive(records, network, lower(contract), contract);
}

/// Looks up the first record for `network` whose stored address matches the
/// from- or the to-address, ignoring case; returns its display name and
/// notify target, or `None` when no record matches.
pub fn get_address(
    records: &Vec<AddressRecord>,
    network: String,
    from_address: String,
    to_address: String,
) -> (r: Option<ResolvedIdentity>)
    ensures
        (match spec_get_address(records@, network@, from_address@, to_address@) {
            Some(rec) => r matches Some(id) && id.display_name@ == rec.name@
                && id.notify_target@ == rec.notify_url@,
            None => r is None,
        }),
{
    let mut i: usize = 0;
    while i < records.len()
        invariant
            i <= records@.len(),
            forall|j: int|
                0 <= j < i ==> !address_record_matches(
                    records@[j],
                    network@,
                    from_address@,
                    to_address@,
                ),
        decreases records@.len() - i,
    {
        let rec = &records[i];
        if rec.network == network && (eq_lower(rec.address.as_str(), from_address.as_str())
            || eq_lower(rec.address.as_str(), to_address.as_str())) {
            proof {
                lemma_get_address_skip(records@, network@, from_address@, to_address@, i as int);
                assert(records@.skip(i as int)[0] == records@[i as int]);
            }
            return Some(
                ResolvedIdentity {
                    display_name: rec.name.clone(),
                    notify_target: rec.notify_url.clone(),
                },
            );
        }
        i += 1;
    }
    proof {
        lemma_get_address_skip(
            records@,
            network@,
            from_address@,
            to_address@,
            records@.len() as int,
        );
    }
    None
}

/// Looks up the first record for `network` whose stored contract address
/// matches the queried one, ignoring case; returns its display name and
/// notify target, or `None` when no record matches.
pub fn get_nft(
    records: &Vec<NftRecord>,
    network: String,
    contract_address: String,
) -> (r: Option<ResolvedIdentity>)
    ensures
        (match spec_get_nft(records@, network@, contract_address@) {
            Some(rec) => r matches Some(id) && id.display_name@ == rec.name@
                && id.notify_target@ == rec.notify_url@,
            None => r is None,
        }),
{
    let mut i: usize = 0;
    while i < records.len()
        invariant
            i <= records@.len(),
            forall|j: int|
                0 <= j < i ==> !nft_record_matches(records@[j], network@, contract_address@),
        decreases records@.len() - i,
    {
        let rec = &records[i];
        if rec.network == network && eq_lower(rec.contract_address.as_str(), contract_address.as_str()) {
            proof {
                lemma_get_nft_skip(records@, network@, contract_address@, i as int);
                assert(records@.skip(i as int)[0] == records@[i as int]);
            }
            return Some(
                ResolvedIdentity {
                    display_name: rec.name.clone(),
                    notify_target: rec.notify_url.clone(),
                },
            );
        }
        i += 1;
    }
    proof {
        lemma_get_nft_skip(records@, network@, contract_address@, records@.len() as int);
    }
    None
}

} // verus!
