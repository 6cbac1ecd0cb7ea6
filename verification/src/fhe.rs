//! Encrypted bits: phantom-zone boolean ciphertexts with their plaintext.
use vstd::prelude::*;
use std::rc::Rc;
use crate::wire::{Wire, plains};
use phantom_zone::{
    aggregate_server_key_shares, gen_client_key, gen_server_key_share, set_common_reference_seed,
    set_parameter_set, ClientKey, Encryptor, FheBool, FheUint8, KeySwitchWithId,
    MultiPartyDecryptor, ParameterSelector, SampleExtractor,
};

verus! {

/// A phantom-zone boolean ciphertext.
///
/// `FheBool` is an alias of a generic struct in a private module of
/// phantom-zone; this holder keeps it as an opaque value, and callers move it
/// in and out through the public field.
#[verifier::external_body]
pub struct Ciphertext {
    pub inner: FheBool,
}

/// A phantom-zone 8-bit ciphertext, held opaquely like [`Ciphertext`].
#[verifier::external_body]
pub struct ByteCiphertext {
    pub inner: FheUint8,
}

/// The client keys made by [`setup`], one per party, in party order.
#[verifier::external_body]
pub struct KeyList {
    inner: Vec<ClientKey>,
}

/// Evidence that phantom-zone is ready on this thread: its parameter set is
/// chosen for this thread and the server key is installed in this process.
///
/// Only [`setup`] makes one. It cannot leave the thread that made it, and
/// every encrypted bit holds a copy, so gates run only where they can.
pub struct FheContext {
    thread_bound: Rc<()>,
}

/// Permission to run phantom-zone's one-time global key setup in this
/// process. phantom-zone keeps its common reference seed and server key in
/// process-wide cells that may be set once. A guard is made only by
/// [`claim_process`], which succeeds at most once per process, and
/// [`generate_keys`] consumes it, so that setup runs at most once.
pub struct SetupGuard {
    claimed: (),
}

/// rayon's `ThreadPoolBuilder::build_global` with the default settings: it
/// starts the process's global thread pool, which rayon does at most once
/// per process (a `std::sync::Once` in rayon-core; every later call, and
/// every call after the pool was started by a first use, returns an error).
/// Its one success is the library's once-per-process claim for phantom-zone's
/// setup. Nothing is stated of when it succeeds: that depends on what ran in
/// the process before.
#[verifier::external_body]
fn claim_process() -> (r: Option<SetupGuard>) {
    match rayon::ThreadPoolBuilder::new().build_global() {
        Ok(()) => Some(SetupGuard { claimed: () }),
        Err(_) => None,
    }
}

/// The parameter sets of the non-interactive multi-party protocol, by the
/// number of parties they are made for.
pub enum PartyLimit {
    UpTo2,
    UpTo4,
    UpTo8,
}

/// The most parties a parameter set serves.
pub open spec fn party_limit(l: PartyLimit) -> usize {
    match l {
        PartyLimit::UpTo2 => 2,
        PartyLimit::UpTo4 => 4,
        PartyLimit::UpTo8 => 8,
    }
}

/// The parties' client keys.
pub struct ClientKeys {
    list: KeyList,
    parties: usize,
}

impl ClientKeys {
    /// Number of parties (and of keys).
    pub closed spec fn parties(&self) -> usize {
        self.parties
    }

    /// There is a key for at least one party.
    #[verifier::type_invariant]
    closed spec fn has_parties(&self) -> bool {
        self.parties >= 1
    }

    /// Number of parties.
    pub fn party_count(&self) -> (r: usize)
        ensures
            r == self.parties(),
    {
        self.parties
    }
}

/// phantom-zone's non-interactive multi-party key generation, run for all
/// parties in this process: `set_parameter_set` for `limit`,
/// `set_common_reference_seed(seed)`, `gen_client_key` for each party,
/// `gen_server_key_share` for each, `aggregate_server_key_shares` and
/// `set_server_key`. The shares and the server key have types that
/// phantom-zone does not export, so the sequence stays in one body. The seed
/// and the server key may be set once per process; the guard, of which a
/// process has at most one, makes this the only time. Claimed: one key per
/// party (`parties` keys, at least one), and the returned context is made
/// after the parameter set and server key are in place.
#[verifier::external_body]
fn generate_keys(guard: SetupGuard, limit: PartyLimit, parties: usize, seed: [u8; 32]) -> (r: (
    FheContext,
    ClientKeys,
))
    requires
        1 <= parties <= party_limit(limit),
    ensures
        r.1.parties() == parties,
{
    set_parameter_set(match limit {
        PartyLimit::UpTo2 => ParameterSelector::NonInteractiveLTE2Party,
        PartyLimit::UpTo4 => ParameterSelector::NonInteractiveLTE4Party,
        PartyLimit::UpTo8 => ParameterSelector::NonInteractiveLTE8Party,
    });
    set_common_reference_seed(seed);
    let keys: Vec<ClientKey> = (0..parties).map(|_| gen_client_key()).collect();
    let shares: Vec<_> =
        keys.iter().enumerate().map(|(id, k)| gen_server_key_share(id, parties, k)).collect();
    aggregate_server_key_shares(&shares).set_server_key();
    (FheContext { thread_bound: Rc::new(()) }, ClientKeys { list: KeyList { inner: keys }, parties })
}

/// Sets phantom-zone up for `parties` parties with the parameter set for
/// `limit` and the common reference `seed`, on this thread: the keys of all
/// parties and the context that the encrypted operations run under.
///
/// phantom-zone's setup can run once per process. The process's one claim
/// is taken here, once, and the rest is [`setup_with_claim`]: `None` when
/// this process has already used its claim (an earlier `setup`, or a global
/// rayon pool started before); otherwise the keys, one per party.
pub fn setup(limit: PartyLimit, parties: usize, seed: [u8; 32]) -> (r: Option<(FheContext, ClientKeys)>)
    requires
        1 <= parties <= party_limit(limit),
    ensures
        r matches Some(p) ==> p.1.parties() == parties,
{
    setup_with_claim(claim_process(), limit, parties, seed)
}

/// Key setup once the process's claim is known: with the claim (a guard),
/// the keys of all `parties` parties and their context; without it, `None`.
/// The result is `Some` exactly when the claim is.
pub fn setup_with_claim(claim: Option<SetupGuard>, limit: PartyLimit, parties: usize, seed: [u8; 32]) -> (r:
    Option<(FheContext, ClientKeys)>)
    requires
        1 <= parties <= party_limit(limit),
    ensures
        r is Some <==> claim is Some,
        r matches Some(p) ==> p.1.parties() == parties,
{
    match claim {
        Some(guard) => Some(generate_keys(guard, limit, parties, seed)),
        None => None,
    }
}

/// A ciphertext together with the plaintext bit it encrypts. The bit is a
/// ghost value: it exists only for the proofs, to state what the circuits
/// compute on plaintexts; nobody holding the ciphertext can read it. It is
/// fixed where the ciphertext is made (by an encryption) and follows the
/// homomorphic operations below.
/// That a ciphertext keeps encrypting its bit through those operations is the
/// scheme's correctness, which phantom-zone gives for its parameter sets up
/// to a failure probability of at most 2^-40 per operation, and only while
/// no more parties take part than the parameter set is made for (which
/// [`setup`] requires).
pub struct EncBit {
    ct: Ciphertext,
    bit: Ghost<bool>,
    ctx: FheContext,
}

/// An encrypted byte with its ghost plaintext.
struct EncByte {
    ct: ByteCiphertext,
    value: Ghost<u8>,
    ctx: FheContext,
}

impl EncBit {
    /// The ciphertext this bit holds.
    pub closed spec fn cipher(&self) -> Ciphertext {
        self.ct
    }

    /// The ciphertext.
    pub fn ciphertext(&self) -> (r: &Ciphertext)
        ensures
            *r == self.cipher(),
    {
        &self.ct
    }

    /// Gives the ciphertext back.
    pub fn into_ciphertext(self) -> (r: Ciphertext)
        ensures
            r == self.cipher(),
    {
        self.ct
    }
}

/// phantom-zone's non-interactive encryption path for a batch of bytes:
/// party `user` encrypts `values` with its client key (`Encryptor<[u8], _>`),
/// and the server unseeds the batch, key switches it with `key_switch(user)`
/// and takes each byte out with `extract_all`. Claimed: one ciphertext per
/// value, each encrypting that value (the scheme's correctness, which holds
/// up to the failure probability of at most 2^-40 per operation that
/// phantom-zone gives for its parameter sets).
#[verifier::external_body]
fn fhe_encrypt_bytes(ctx: &FheContext, keys: &ClientKeys, user: usize, values: &Vec<u8>) -> (r: Vec<
    EncByte,
>)
    requires
        user < keys.parties(),
    ensures
        r.len() == values.len(),
        forall|i: int| 0 <= i < values.len() ==> r@[i].value@ == values@[i],
{
    let batch = keys.list.inner[user].encrypt(values.as_slice());
    let bytes: Vec<FheUint8> = batch.unseed::<Vec<Vec<u64>>>().key_switch(user).extract_all();
    bytes.into_iter().zip(values.iter()).map(|(b, v)| EncByte {
        ct: ByteCiphertext { inner: b },
        value: Ghost(*v),
        ctx: FheContext { thread_bound: Rc::clone(&ctx.thread_bound) },
    }).collect()
}

/// Homomorphic equality of two bytes: phantom-zone's `FheUint8::eq`.
/// Claimed: the result encrypts whether the two plaintexts are equal (the
/// scheme's correctness, up to its failure probability).
#[verifier::external_body]
fn fhe_eq(a: &EncByte, b: &EncByte) -> (r: EncBit)
    ensures
        r.bit@ == (a.value@ == b.value@),
{
    EncBit {
        ct: Ciphertext { inner: a.ct.inner.eq(&b.ct.inner) },
        bit: Ghost(a.value@ == b.value@),
        ctx: FheContext { thread_bound: Rc::clone(&a.ctx.thread_bound) },
    }
}

/// Encrypts `bits` for party `user`: each bit is sent as a byte (0 or 1)
/// together with an encrypted 1, and on the server each byte is compared
/// with that 1. The results encrypt `bits`.
pub fn encrypt_bits(ctx: &FheContext, keys: &ClientKeys, user: usize, bits: &Vec<bool>) -> (r: Vec<EncBit>)
    requires
        user < keys.parties(),
    ensures
        r.len() == bits.len(),
        plains(r@) == bits@,
{
    let mut values: Vec<u8> = Vec::new();
    let mut i: usize = 0;
    while i < bits.len()
        invariant
            i <= bits.len(),
            values.len() == i,
            forall|k: int| 0 <= k < i ==> values@[k] == (if bits@[k] { 1u8 } else { 0u8 }),
        decreases bits.len() - i,
    {
        values.push(if bits[i] { 1 } else { 0 });
        i = i + 1;
    }
    values.push(1);
    let bytes = fhe_encrypt_bytes(ctx, keys, user, &values);
    let n = bits.len();
    let mut out: Vec<EncBit> = Vec::new();
    let mut j: usize = 0;
    while j < n
        invariant
            n == bits.len(),
            bytes.len() == n + 1,
            values.len() == n + 1,
            j <= n,
            out.len() == j,
            forall|k: int| 0 <= k <= n ==> bytes@[k].value@ == values@[k],
            values@[n as int] == 1u8,
            forall|k: int| 0 <= k < n ==> values@[k] == (if bits@[k] { 1u8 } else { 0u8 }),
            forall|k: int| 0 <= k < j ==> out@[k].bit@ == bits@[k],
        decreases n - j,
    {
        let e = fhe_eq(&bytes[j], &bytes[n]);
        assert(bytes@[j as int].value@ == values@[j as int] && bytes@[n as int].value@ == 1u8);
        assert(e.bit@ == bits@[j as int]);
        out.push(e);
        j = j + 1;
    }
    assert(plains(out@) =~= bits@);
    out
}

/// Homomorphic AND: phantom-zone's `BitAnd` for `&FheBool`, a bootstrapped
/// AND gate under the server key installed by [`setup`] (the operands hold
/// its context, so the call runs on a ready thread). Claimed: the result
/// encrypts the AND of the two plaintexts; this is the scheme's correctness,
/// which holds up to the failure probability of at most 2^-40 per operation
/// that phantom-zone gives for its parameter sets.
#[verifier::external_body]
fn fhe_and(a: &EncBit, b: &EncBit) -> (r: EncBit)
    ensures
        r.bit@ == (a.bit@ && b.bit@),
{
    EncBit {
        ct: Ciphertext { inner: &a.ct.inner & &b.ct.inner },
        bit: Ghost(a.bit@ && b.bit@),
        ctx: FheContext { thread_bound: Rc::clone(&a.ctx.thread_bound) },
    }
}

/// Homomorphic OR: phantom-zone's `BitOr` for `&FheBool`; claimed to encrypt
/// the OR of the two plaintexts (same conditions as `fhe_and`).
#[verifier::external_body]
fn fhe_or(a: &EncBit, b: &EncBit) -> (r: EncBit)
    ensures
        r.bit@ == (a.bit@ || b.bit@),
{
    EncBit {
        ct: Ciphertext { inner: &a.ct.inner | &b.ct.inner },
        bit: Ghost(a.bit@ || b.bit@),
        ctx: FheContext { thread_bound: Rc::clone(&a.ctx.thread_bound) },
    }
}

/// Homomorphic XOR: phantom-zone's `BitXor` for `&FheBool`; claimed to
/// encrypt the XOR of the two plaintexts (same conditions as `fhe_and`).
#[verifier::external_body]
fn fhe_xor(a: &EncBit, b: &EncBit) -> (r: EncBit)
    ensures
        r.bit@ == (a.bit@ != b.bit@),
{
    EncBit {
        ct: Ciphertext { inner: &a.ct.inner ^ &b.ct.inner },
        bit: Ghost(a.bit@ != b.bit@),
        ctx: FheContext { thread_bound: Rc::clone(&a.ctx.thread_bound) },
    }
}

/// Homomorphic NOT: phantom-zone's `Not` for `&FheBool` (a local negation
/// that needs this thread's parameter set, which the operand's context
/// guarantees); claimed to encrypt the negated plaintext.
#[verifier::external_body]
fn fhe_not(a: &EncBit) -> (r: EncBit)
    ensures
        r.bit@ == !a.bit@,
{
    EncBit {
        ct: Ciphertext { inner: !&a.ct.inner },
        bit: Ghost(!a.bit@),
        ctx: FheContext { thread_bound: Rc::clone(&a.ctx.thread_bound) },
    }
}

/// A second copy of an encrypted bit: the derived `Clone` of phantom-zone's
/// `FheBool` (a copy of its coefficient vector). Claimed: the copy encrypts
/// the same bit.
#[verifier::external_body]
fn fhe_copy(a: &EncBit) -> (r: EncBit)
    ensures
        r.bit@ == a.bit@,
{
    EncBit {
        ct: Ciphertext { inner: a.ct.inner.clone() },
        bit: Ghost(a.bit@),
        ctx: FheContext { thread_bound: Rc::clone(&a.ctx.thread_bound) },
    }
}

/// Joint decryption of one bit: every party's client key makes its
/// decryption share of the `FheBool` (phantom-zone's
/// `MultiPartyDecryptor::gen_decryption_share`), and the first party's key
/// adds the shares and decodes (`aggregate_decryption_shares`); the two calls
/// are the two halves of one decryption and the shares, being random, have
/// no name of their own. `ClientKeys` holds one key per party, at least one.
/// The bit's context keeps the call on the thread with the parameter set.
/// Claimed: the result is the bit's plaintext (the scheme's correctness, up
/// to its failure probability of at most 2^-40).
#[verifier::external_body]
fn fhe_decrypt(keys: &ClientKeys, b: &EncBit) -> (r: bool)
    requires
        keys.parties() >= 1,
    ensures
        r == b.bit@,
{
    let cks = &keys.list.inner;
    let shares: Vec<u64> = cks.iter().map(|k| k.gen_decryption_share(&b.ct.inner)).collect();
    cks[0].aggregate_decryption_shares(&b.ct.inner, &shares)
}

/// Joint decryption of `bits` by all parties: the plaintexts, in order.
pub fn decrypt_bits(keys: &ClientKeys, bits: &Vec<EncBit>) -> (r: Vec<bool>)
    ensures
        r@ == plains(bits@),
{
    proof {
        use_type_invariant(keys);
    }
    let mut out: Vec<bool> = Vec::new();
    let mut i: usize = 0;
    while i < bits.len()
        invariant
            keys.parties() >= 1,
            i <= bits.len(),
            out@ == plains(bits@).take(i as int),
        decreases bits.len() - i,
    {
        let b = fhe_decrypt(keys, &bits[i]);
        out.push(b);
        i = i + 1;
        assert(out@ =~= plains(bits@).take(i as int));
    }
    assert(plains(bits@).take(i as int) =~= plains(bits@));
    out
}

impl Clone for EncBit {
    fn clone(&self) -> (r: Self)
        ensures
            r.plain() == self.plain(),
    {
        fhe_copy(self)
    }
}

impl Wire for EncBit {
    closed spec fn plain(&self) -> bool {
        self.bit@
    }

    fn and(&self, other: &Self) -> (r: Self) {
        fhe_and(self, other)
    }

    fn or(&self, other: &Self) -> (r: Self) {
        fhe_or(self, other)
    }

    fn xor(&self, other: &Self) -> (r: Self) {
        fhe_xor(self, other)
    }

    fn not(&self) -> (r: Self) {
        fhe_not(self)
    }
}

} // verus!
