use vstd::prelude::*;

use arcium_anchor::prelude::ArgumentList;
use arcium_anchor::ArgBuilder;

verus! {

/// One argument of a confidential computation.
#[derive(Clone, Copy, Debug, PartialEq, Eq)]
pub enum Argument {
    X25519Pubkey([u8; 32]),
    PlaintextU128(u128),
    EncryptedU64([u8; 32]),
    PlaintextU64(u64),
}

#[verifier::external_type_specification]
#[verifier::external_body]
pub struct ExArgBuilder(ArgBuilder);

#[verifier::external_type_specification]
#[verifier::external_body]
pub struct ExArgumentList(ArgumentList);

/// The arguments an `ArgBuilder` holds, in the order they were pushed.
pub uninterp spec fn builder_args(b: ArgBuilder) -> Seq<Argument>;

/// The arguments an `ArgumentList` holds, in order.
pub uninterp spec fn list_args(l: ArgumentList) -> Seq<Argument>;

/// Relies on arcium_anchor's `ArgBuilder::new`: it starts with no argument.
#[verifier::external_body]
fn builder_new() -> (r: ArgBuilder)
    ensures
        builder_args(r) == Seq::<Argument>::empty(),
{
    ArgBuilder::new()
}

/// Relies on `ArgBuilder::x25519_pubkey`: it appends the key. It panics once
/// 256 byte arrays are held, which the bound on the length rules out.
#[verifier::external_body]
fn builder_x25519_pubkey(b: ArgBuilder, key: [u8; 32]) -> (r: ArgBuilder)
    requires
        builder_args(b).len() < 256,
    ensures
        builder_args(r) == builder_args(b).push(Argument::X25519Pubkey(key)),
{
    b.x25519_pubkey(key)
}

/// Relies on `ArgBuilder::plaintext_u128`: it appends the value. It panics
/// once 256 such values are held, which the bound on the length rules out.
#[verifier::external_body]
fn builder_plaintext_u128(b: ArgBuilder, v: u128) -> (r: ArgBuilder)
    requires
        builder_args(b).len() < 256,
    ensures
        builder_args(r) == builder_args(b).push(Argument::PlaintextU128(v)),
{
    b.plaintext_u128(v)
}

/// Relies on `ArgBuilder::encrypted_u64`: it appends the sealed value. It
/// panics once 256 byte arrays are held, which the bound on the length rules
/// out.
#[verifier::external_body]
fn builder_encrypted_u64(b: ArgBuilder, sealed: [u8; 32]) -> (r: ArgBuilder)
    requires
        builder_args(b).len() < 256,
    ensures
        builder_args(r) == builder_args(b).push(Argument::EncryptedU64(sealed)),
{
    b.encrypted_u64(sealed)
}

/// Relies on `ArgBuilder::plaintext_u64`: it appends the value. It panics
/// once 256 plaintext numbers are held, which the bound on the length rules
/// out.
#[verifier::external_body]
fn builder_plaintext_u64(b: ArgBuilder, v: u64) -> (r: ArgBuilder)
    requires
        builder_args(b).len() < 256,
    ensures
        builder_args(r) == builder_args(b).push(Argument::PlaintextU64(v)),
{
    b.plaintext_u64(v)
}

/// Relies on `ArgBuilder::build`: it hands over the list it built.
#[verifier::external_body]
fn builder_build(b: ArgBuilder) -> (r: ArgumentList)
    ensures
        list_args(r) == builder_args(b),
{
    b.build()
}

/// The argument list that the execution boundary takes, holding `args` in
/// their order.
pub fn argument_list(args: &Vec<Argument>) -> (r: ArgumentList)
    requires
        args@.len() <= 256,
    ensures
        list_args(r) == args@,
{
    let mut b = builder_new();
    let mut i: usize = 0;
    while i < args.len()
        invariant
            i <= args@.len(),
            args@.len() <= 256,
            builder_args(b) == args@.subrange(0, i as int),
        decreases args@.len() - i,
    {
        b = match args[i] {
            Argument::X25519Pubkey(k) => builder_x25519_pubkey(b, k),
            Argument::PlaintextU128(v) => builder_plaintext_u128(b, v),
            Argument::EncryptedU64(s) => builder_encrypted_u64(b, s),
            Argument::PlaintextU64(v) => builder_plaintext_u64(b, v),
        };
        assert(args@.subrange(0, i + 1) == args@.subrange(0, i as int).push(args@[i as int]));
        i = i + 1;
    }
    assert(args@.subrange(0, args@.len() as int) == args@);
    builder_build(b)
}

} // verus!
