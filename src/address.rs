use crate::error::LookupError;
use solana_program::pubkey::Pubkey;
use sub_registrar::state::registry::Registrar;
use vstd::prelude::*;
use vstd::string::StringSliceAdditionalSpecFns;

verus! {

/// The byte `.` that separates the labels of a domain.
pub const DOT: u8 = 46;

/// The suffix `.sol` that may end a domain name.
pub open spec fn sol_suffix() -> Seq<u8> {
    seq![46u8, 115u8, 111u8, 108u8]
}

/// A domain name without its `.sol` suffix, where it has one.
pub open spec fn bare_name(d: Seq<u8>) -> Seq<u8> {
    if sol_suffix().is_suffix_of(d) {
        d.subrange(0, d.len() - 4)
    } else {
        d
    }
}

/// The bytes `SPL Name Service` that the name service hashes before a name.
pub open spec fn name_hash_prefix() -> Seq<u8> {
    seq![83u8, 80u8, 76u8, 32u8, 78u8, 97u8, 109u8, 101u8, 32u8, 83u8, 101u8, 114u8, 118u8, 105u8, 99u8, 101u8]
}

/// The address of the root `.sol` domain account, which is the parent of every
/// top-level domain.
pub open spec fn root_domain_bytes() -> Seq<u8> {
    seq![
        61u8, 83u8, 194u8, 75u8, 56u8, 54u8, 14u8, 211u8, 129u8, 58u8, 35u8, 223u8, 178u8, 223u8,
        216u8, 32u8, 171u8, 88u8, 33u8, 203u8, 121u8, 41u8, 163u8, 141u8, 46u8, 170u8, 178u8, 82u8,
        232u8, 56u8, 37u8, 149u8,
    ]
}

/// The SHA-256 digest of the given bytes.
pub uninterp spec fn sha256_of(data: Seq<u8>) -> Seq<u8>;

/// The address of the name account whose hashed name and parent are given,
/// as the name-service program derives it (no name class).
pub uninterp spec fn name_key_of(hashed: Seq<u8>, parent: Seq<u8>) -> Seq<u8>;

/// The address of the registrar account of the given domain account, as the
/// sub-domain registrar program derives it.
pub uninterp spec fn registrar_key_of(domain_key: Seq<u8>) -> Seq<u8>;

/// The hashed form of a name label.
pub open spec fn hashed_name(label: Seq<u8>) -> Seq<u8> {
    sha256_of(name_hash_prefix() + label)
}

/// The address of a top-level domain, a child of the root domain.
pub open spec fn top_level_key(label: Seq<u8>) -> Seq<u8> {
    name_key_of(hashed_name(label), root_domain_bytes())
}

/// The address of the name account of a domain: a bare name without dots is a
/// top-level domain; one with a single dot is a sub-domain, whose label is
/// hashed behind a zero byte under its parent's address; any other is not a
/// valid domain.
pub open spec fn domain_key_of(d: Seq<u8>) -> Option<Seq<u8>> {
    let n = bare_name(d);
    match n.index_of_first(DOT) {
        None => Some(top_level_key(n)),
        Some(i) => if n.skip(i + 1).contains(DOT) {
            None
        } else {
            Some(name_key_of(hashed_name(seq![0u8] + n.take(i)), top_level_key(n.skip(i + 1))))
        },
    }
}

/// The address of the registrar record of a domain.
pub open spec fn registrar_address_of(d: Seq<u8>) -> Option<Seq<u8>> {
    match domain_key_of(d) {
        Some(k) => Some(registrar_key_of(k)),
        None => None,
    }
}

/// Relies on solana_program::hash::hash: the SHA-256 digest of its input.
#[verifier::external_body]
fn sha256(data: &[u8]) -> (r: [u8; 32])
    ensures
        r@ == sha256_of(data@),
{
    solana_program::hash::hash(data).to_bytes()
}

/// Relies on spl_name_service_2::state::HASH_PREFIX, the text `SPL Name Service`.
#[verifier::external_body]
fn hash_prefix() -> (r: &'static [u8])
    ensures
        r@ == name_hash_prefix(),
{
    spl_name_service_2::state::HASH_PREFIX.as_bytes()
}

/// Relies on sub_registrar::state::ROOT_DOMAIN_ACCOUNT, the root `.sol` domain.
#[verifier::external_body]
fn root_domain_account() -> (r: [u8; 32])
    ensures
        r@ == root_domain_bytes(),
{
    sub_registrar::state::ROOT_DOMAIN_ACCOUNT.to_bytes()
}

/// Relies on spl_name_service_2::state::get_seeds_and_key, with the name-service
/// program id, no name class and the given parent: the derived address
/// depends on these arguments alone. Its address search panics only where
/// no bump seed at all gives a valid address.
#[verifier::external_body]
fn name_account_key(hashed: &[u8; 32], parent: &[u8; 32]) -> (r: [u8; 32])
    ensures
        r@ == name_key_of(hashed@, parent@),
{
    let parent = Pubkey::new_from_array(*parent);
    let (key, _) = spl_name_service_2::state::get_seeds_and_key(
        &spl_name_service_2::ID,
        hashed.to_vec(),
        None,
        Some(&parent),
    );
    key.to_bytes()
}

/// Relies on sub_registrar's Registrar::find_key with the registrar program
/// id: the derived address depends on the domain account alone. Its address
/// search panics only where no bump seed at all gives a valid address.
#[verifier::external_body]
fn registrar_account_key(domain_key: &[u8; 32]) -> (r: [u8; 32])
    ensures
        r@ == registrar_key_of(domain_key@),
{
    Registrar::find_key(&Pubkey::new_from_array(*domain_key), &sub_registrar::ID).0.to_bytes()
}

/// Appends `s[lo..hi]` to `v`.
fn append_range(v: &mut Vec<u8>, s: &[u8], lo: usize, hi: usize)
    requires
        lo <= hi <= s@.len(),
    ensures
        final(v)@ == old(v)@ + s@.subrange(lo as int, hi as int),
{
    let ghost start = v@;
    let mut i: usize = lo;
    while i < hi
        invariant
            lo <= i <= hi <= s@.len(),
            v@ == start + s@.subrange(lo as int, i as int),
        decreases hi - i,
    {
        v.push(s[i]);
        i = i + 1;
        assert(s@.subrange(lo as int, i as int) == s@.subrange(lo as int, i - 1 as int).push(s@[i - 1]));
    }
}

/// The first dot of `s[lo..hi]`, if there is one.
fn first_dot_in(s: &[u8], lo: usize, hi: usize) -> (r: Option<usize>)
    requires
        lo <= hi <= s@.len(),
    ensures
        match r {
            Some(i) => lo <= i < hi && s@[i as int] == DOT && forall|j: int|
                lo <= j < i ==> s@[j] != DOT,
            None => forall|j: int| lo <= j < hi ==> s@[j] != DOT,
        },
{
    let mut i: usize = lo;
    while i < hi
        invariant
            lo <= i <= hi <= s@.len(),
            forall|j: int| lo <= j < i ==> s@[j] != DOT,
        decreases hi - i,
    {
        if s[i] == DOT {
            return Some(i);
        }
        i = i + 1;
    }
    None
}

/// The length of the domain once a `.sol` suffix is taken off.
fn bare_len(d: &[u8]) -> (r: usize)
    ensures
        r <= d@.len(),
        bare_name(d@) == d@.subrange(0, r as int),
{
    let n = d.len();
    if n >= 4 && d[n - 4] == 46u8 && d[n - 3] == 115u8 && d[n - 2] == 111u8 && d[n - 1] == 108u8 {
        assert(sol_suffix().is_suffix_of(d@)) by {
            assert(sol_suffix() =~= d@.subrange(n - 4, n as int));
        }
        n - 4
    } else {
        assert(!sol_suffix().is_suffix_of(d@)) by {
            if sol_suffix().is_suffix_of(d@) {
                assert(d@.subrange(n - 4, n as int)[0] == sol_suffix()[0]);
                assert(d@.subrange(n - 4, n as int)[1] == sol_suffix()[1]);
                assert(d@.subrange(n - 4, n as int)[2] == sol_suffix()[2]);
                assert(d@.subrange(n - 4, n as int)[3] == sol_suffix()[3]);
            }
        }
        assert(d@.subrange(0, n as int) =~= d@);
        n
    }
}

/// The hashed form of the label `prefix + s[lo..hi]`.
fn hash_label(prefix: &[u8], s: &[u8], lo: usize, hi: usize) -> (r: [u8; 32])
    requires
        lo <= hi <= s@.len(),
    ensures
        r@ == hashed_name(prefix@ + s@.subrange(lo as int, hi as int)),
{
    let mut buf: Vec<u8> = Vec::new();
    let p = hash_prefix();
    append_range(&mut buf, p, 0, p.len());
    append_range(&mut buf, prefix, 0, prefix.len());
    append_range(&mut buf, s, lo, hi);
    assert(p@.subrange(0, p@.len() as int) =~= p@);
    assert(prefix@.subrange(0, prefix@.len() as int) =~= prefix@);
    assert(buf@ =~= name_hash_prefix() + (prefix@ + s@.subrange(lo as int, hi as int)));
    sha256(buf.as_slice())
}

/// Derives the address of the name account of `domain`. A trailing `.sol` is
/// ignored; a name with more than one dot left is `InvalidDomain`.
pub fn get_domain_key(domain: &str) -> (r: Result<[u8; 32], LookupError>)
    ensures
        match domain_key_of(domain.spec_bytes()) {
            Some(k) => r matches Ok(a) && a@ == k,
            None => r == Err::<[u8; 32], LookupError>(LookupError::InvalidDomain),
        },
{
    let d = domain.as_bytes();
    let n = bare_len(d);
    let ghost name = d@.subrange(0, n as int);
    proof {
        name.index_of_first_ensures(DOT);
    }
    let none: [u8; 0] = [];
    let zero: [u8; 1] = [0u8];
    assert(none@ =~= Seq::<u8>::empty());
    assert(zero@ =~= seq![0u8]);
    match first_dot_in(d, 0, n) {
        None => {
            assert(!name.contains(DOT));
            assert(Seq::<u8>::empty() + name =~= name);
            let h = hash_label(&none, d, 0, n);
            Ok(name_account_key(&h, &root_domain_account()))
        },
        Some(i) => {
            assert(name[i as int] == DOT);
            assert(name.index_of_first(DOT) == Some(i as int));
            assert(name.take(i as int) =~= d@.subrange(0, i as int));
            assert(name.skip(i + 1) =~= d@.subrange(i + 1, n as int));
            let second = first_dot_in(d, i + 1, n);
            if let Some(j) = second {
                assert(name.skip(i + 1)[j - (i + 1)] == DOT);
                assert(name.skip(i + 1).contains(DOT));
                Err(LookupError::InvalidDomain)
            } else {
                assert(!name.skip(i + 1).contains(DOT));
                assert(Seq::<u8>::empty() + name.skip(i + 1) =~= name.skip(i + 1));
                let hp = hash_label(&none, d, i + 1, n);
                let parent = name_account_key(&hp, &root_domain_account());
                let hs = hash_label(&zero, d, 0, i);
                Ok(name_account_key(&hs, &parent))
            }
        },
    }
}

/// Derives the address of the registrar record of `domain`: the registrar
/// program's address for the domain's name account.
pub fn registrar_address(domain: &str) -> (r: Result<[u8; 32], LookupError>)
    ensures
        match registrar_address_of(domain.spec_bytes()) {
            Some(k) => r matches Ok(a) && a@ == k,
            None => r == Err::<[u8; 32], LookupError>(LookupError::InvalidDomain),
        },
{
    let key = get_domain_key(domain)?;
    Ok(registrar_account_key(&key))
}

/// Derivation is deterministic: equal domain names give the same registrar
/// address, or both fail.
pub proof fn lemma_derivation_deterministic(a: &str, b: &str)
    requires
        a@ == b@,
    ensures
        registrar_address_of(a.spec_bytes()) == registrar_address_of(b.spec_bytes()),
{
}

} // verus!
