//! Password digests for demo seed data: the 64-bit std `DefaultHasher`
//! value of the password, written as 16 lowercase hexadecimal digits.
use vstd::prelude::*;
use std::collections::hash_map::DefaultHasher;
use std::hash::Hasher;
use vstd::std_specs::hash::DefaultHasherAdditionalSpecFns;
use vstd::string::StringSliceAdditionalSpecFns;
use crate::format::{fixed_digits, write_fixed};

verus! {

/// The chunks that hashing a text feeds a hasher, as `str`'s `Hash` impl
/// does: its UTF-8 bytes, then the byte `0xff`.
pub open spec fn text_hash_input(s: &str) -> Seq<Seq<u8>> {
    seq![s.spec_bytes(), seq![0xffu8]]
}

/// The digest of `password`: the `DefaultHasher` value of the password as
/// 16 zero-padded lowercase hexadecimal digits.
pub open spec fn password_digest(password: &str) -> Seq<char> {
    fixed_digits(DefaultHasher::spec_finish(text_hash_input(password)) as nat, 16, 16)
}

/// The digest of `password` (`format!("{:016x}", hash)`).
pub fn digest_password(password: &str) -> (r: String)
    ensures
        r@ == password_digest(password),
{
    let mut hasher = DefaultHasher::new();
    hasher.write(password.as_bytes());
    let end: [u8; 1] = [0xffu8];
    hasher.write(&end);
    assert(end@ =~= seq![0xffu8]);
    assert(hasher@ =~= text_hash_input(password));
    let h = hasher.finish();
    write_fixed(h, 16, 16)
}

} // verus!
