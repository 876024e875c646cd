//! The argument list of one tally computation, in the order in which the
//! accumulator declares its inputs.

use crate::errors::VotingError;
use arcium_anchor::prelude::ArgumentList;
use arcium_anchor::ArgBuilder;
use vstd::prelude::*;

verus! {

/// `arcium_anchor::ArgBuilder`, the collector of a computation's arguments.
/// Nothing inside it is visible here; `builder_args` names what it holds.
#[verifier::external_type_specification]
#[verifier::external_body]
pub struct ExArgBuilder(arcium_anchor::ArgBuilder);

/// `ArgumentList` as `arcium_anchor` hands it out: the finished arguments of
/// a computation. Nothing inside it is visible here; `list_args` names what
/// it holds.
#[verifier::external_type_specification]
#[verifier::external_body]
pub struct ExArgumentList(arcium_anchor::prelude::ArgumentList);

/// One positional argument of a computation, with the value it carries.
pub enum OrderedArg {
    /// The client's x25519 public key.
    X25519Pubkey([u8; 32]),
    /// A 128-bit number sent in the clear.
    PlaintextU128(u128),
    /// The ciphertext of a 64-bit unsigned number.
    EncryptedU64([u8; 32]),
    /// An argument of any other kind.
    Other,
}

/// The arguments that a builder holds, first added first.
pub uninterp spec fn builder_args(b: ArgBuilder) -> Seq<OrderedArg>;

/// How many 32-byte values a builder stores.
pub uninterp spec fn builder_byte_arrays(b: ArgBuilder) -> nat;

/// How many 128-bit values a builder stores.
pub uninterp spec fn builder_wide_values(b: ArgBuilder) -> nat;

/// The arguments that a finished list holds, first added first.
pub uninterp spec fn list_args(l: ArgumentList) -> Seq<OrderedArg>;

/// `ArgBuilder::new`: a builder that holds nothing.
#[verifier::external_body]
fn new_builder() -> (b: ArgBuilder)
    ensures
        builder_args(b) == Seq::<OrderedArg>::empty(),
        builder_byte_arrays(b) == 0,
        builder_wide_values(b) == 0,
{
    ArgBuilder::new()
}

/// `ArgBuilder::x25519_pubkey`: appends the key as the last argument and
/// stores its 32 bytes. The outside method panics once 256 byte arrays are
/// stored, which the precondition leaves out.
#[verifier::external_body]
fn push_x25519_pubkey(b: ArgBuilder, value: [u8; 32]) -> (r: ArgBuilder)
    requires
        builder_byte_arrays(b) < 256,
    ensures
        builder_args(r) == builder_args(b).push(OrderedArg::X25519Pubkey(value)),
        builder_byte_arrays(r) == builder_byte_arrays(b) + 1,
        builder_wide_values(r) == builder_wide_values(b),
{
    b.x25519_pubkey(value)
}

/// `ArgBuilder::plaintext_u128`: appends the number as the last argument and
/// stores it among the 128-bit values. The outside method panics once 256 of
/// those are stored, which the precondition leaves out.
#[verifier::external_body]
fn push_plaintext_u128(b: ArgBuilder, value: u128) -> (r: ArgBuilder)
    requires
        builder_wide_values(b) < 256,
    ensures
        builder_args(r) == builder_args(b).push(OrderedArg::PlaintextU128(value)),
        builder_byte_arrays(r) == builder_byte_arrays(b),
        builder_wide_values(r) == builder_wide_values(b) + 1,
{
    b.plaintext_u128(value)
}

/// `ArgBuilder::encrypted_u64`: appends the ciphertext as the last argument
/// and stores its 32 bytes. The outside method panics once 256 byte arrays
/// are stored, which the precondition leaves out.
#[verifier::external_body]
fn push_encrypted_u64(b: ArgBuilder, value: [u8; 32]) -> (r: ArgBuilder)
    requires
        builder_byte_arrays(b) < 256,
    ensures
        builder_args(r) == builder_args(b).push(OrderedArg::EncryptedU64(value)),
        builder_byte_arrays(r) == builder_byte_arrays(b) + 1,
        builder_wide_values(r) == builder_wide_values(b),
{
    b.encrypted_u64(value)
}

/// `ArgBuilder::build`: hands out the list that the builder has collected.
#[verifier::external_body]
fn finish(b: ArgBuilder) -> (l: ArgumentList)
    ensures
        list_args(l) == builder_args(b),
{
    b.build()
}

/// Number of tally ciphertexts that the accumulator takes.
pub const TALLY_ARITY: usize = 3;

/// The argument list of one tally computation: the client's public key, the
/// nonce, each tally ciphertext in bucket order, then the ciphertexts of the
/// vote's choice and of its weight.
pub open spec fn ordered_args(
    pubkey: [u8; 32],
    nonce: u128,
    tally: Seq<[u8; 32]>,
    encrypted_choice: [u8; 32],
    encrypted_weight: [u8; 32],
) -> Seq<OrderedArg> {
    seq![OrderedArg::X25519Pubkey(pubkey), OrderedArg::PlaintextU128(nonce)] + tally.map_values(
        |c: [u8; 32]| OrderedArg::EncryptedU64(c),
    ) + seq![
        OrderedArg::EncryptedU64(encrypted_choice),
        OrderedArg::EncryptedU64(encrypted_weight),
    ]
}

/// Assembles the argument list of one tally computation.
///
/// A tally that does not hold exactly one ciphertext per bucket is turned
/// down with `ConfigMismatch`, before anything is built.
pub fn build_args(
    tally: &[[u8; 32]],
    encrypted_choice: [u8; 32],
    encrypted_weight: [u8; 32],
    pubkey: [u8; 32],
    nonce: u128,
) -> (r: Result<ArgumentList, VotingError>)
    ensures
        r is Ok <==> tally@.len() == TALLY_ARITY,
        r matches Ok(list) ==> list_args(list) == ordered_args(
            pubkey,
            nonce,
            tally@,
            encrypted_choice,
            encrypted_weight,
        ),
        r matches Err(e) ==> e == VotingError::ConfigMismatch,
{
    if tally.len() != TALLY_ARITY {
        return Err(VotingError::ConfigMismatch);
    }
    let mut builder = new_builder();
    builder = push_x25519_pubkey(builder, pubkey);
    builder = push_plaintext_u128(builder, nonce);
    let ghost head = seq![OrderedArg::X25519Pubkey(pubkey), OrderedArg::PlaintextU128(nonce)];
    assert(builder_args(builder) =~= head);

    let mut i: usize = 0;
    while i < tally.len()
        invariant
            i <= tally.len() == 3,
            builder_args(builder) == head + tally@.take(i as int).map_values(
                |c: [u8; 32]| OrderedArg::EncryptedU64(c),
            ),
            builder_byte_arrays(builder) == 1 + i,
            builder_wide_values(builder) == 1,
        decreases tally.len() - i,
    {
        builder = push_encrypted_u64(builder, tally[i]);
        assert(builder_args(builder) =~= head + tally@.take(i + 1).map_values(
            |c: [u8; 32]| OrderedArg::EncryptedU64(c),
        )) by {
            assert(tally@.take(i + 1) =~= tally@.take(i as int).push(tally@[i as int]));
        }
        i += 1;
    }
    assert(tally@.take(i as int) =~= tally@);
    builder = push_encrypted_u64(builder, encrypted_choice);
    builder = push_encrypted_u64(builder, encrypted_weight);
    let list = finish(builder);
    assert(list_args(list) =~= ordered_args(
        pubkey,
        nonce,
        tally@,
        encrypted_choice,
        encrypted_weight,
    ));
    Ok(list)
}

} // verus!
