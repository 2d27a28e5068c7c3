use vstd::prelude::*;
use vstd::string::*;
use vstd::utf8::encode_utf8;
use crate::accel::AccelChoice;
use crate::argv::launch_args;
use crate::config::ResolvedConfig;
use crate::text::{digit_char, digit_str, views};

verus! {

/// The bytes that identify an argument sequence: each argument's UTF-8
/// encoding followed by a zero byte.
pub open spec fn hash_input(args: Seq<Seq<char>>) -> Seq<u8>
    decreases args.len(),
{
    if args.len() == 0 {
        Seq::empty()
    } else {
        hash_input(args.drop_last()) + encode_utf8(args.last()) + seq![0u8]
    }
}

/// Two lower-case hexadecimal digits for each byte.
pub open spec fn hex_of(bytes: Seq<u8>) -> Seq<char>
    decreases bytes.len(),
{
    if bytes.len() == 0 {
        Seq::empty()
    } else {
        hex_of(bytes.drop_last()) + seq![
            digit_char((bytes.last() / 16) as nat),
            digit_char((bytes.last() % 16) as nat)
        ]
    }
}

/// The SHA-256 digest of the given bytes.
pub uninterp spec fn sha256_of(data: Seq<u8>) -> Seq<u8>;

/// Relies on `sha2::Sha256::digest`: the SHA-256 digest of `data`, whose
/// output type holds 32 bytes.
#[verifier::external_body]
fn sha256(data: &[u8]) -> (r: Vec<u8>)
    ensures
        r@ == sha256_of(data@),
        r@.len() == 32,
{
    <sha2::Sha256 as sha2::Digest>::digest(data).to_vec()
}

/// The bytes hashed for an argument sequence.
pub fn hash_material(argv: &[String]) -> (r: Vec<u8>)
    ensures
        r@ == hash_input(views(argv@)),
{
    let mut out: Vec<u8> = Vec::new();
    let mut i: usize = 0;
    while i < argv.len()
        invariant
            i <= argv@.len(),
            out@ == hash_input(views(argv@).subrange(0, i as int)),
        decreases argv@.len() - i,
    {
        let bytes = argv[i].as_str().as_bytes();
        out.extend_from_slice(bytes);
        out.push(0u8);
        let ghost done = views(argv@).subrange(0, i + 1);
        assert(done.drop_last() =~= views(argv@).subrange(0, i as int));
        assert(out@ =~= hash_input(done));
        i = i + 1;
    }
    assert(views(argv@).subrange(0, i as int) =~= views(argv@));
    out
}

/// Lower-case hexadecimal notation of `bytes`.
pub fn hex_lower(bytes: &[u8]) -> (r: String)
    ensures
        r@ == hex_of(bytes@),
        r@.len() == 2 * bytes@.len(),
{
    let mut s = String::new();
    let mut i: usize = 0;
    while i < bytes.len()
        invariant
            i <= bytes@.len(),
            s@ == hex_of(bytes@.subrange(0, i as int)),
            s@.len() == 2 * i,
        decreases bytes@.len() - i,
    {
        let b = bytes[i];
        s.append(digit_str((b / 16) as u64));
        s.append(digit_str((b % 16) as u64));
        let ghost done = bytes@.subrange(0, i + 1);
        assert(done.drop_last() =~= bytes@.subrange(0, i as int));
        assert(s@ =~= hex_of(done));
        i = i + 1;
    }
    assert(bytes@.subrange(0, i as int) =~= bytes@);
    s
}

/// The digest recorded for a launch: SHA-256 over the arguments, each
/// followed by a zero byte, as 64 lower-case hexadecimal digits.
pub fn hash_argv(argv: &[String]) -> (r: String)
    ensures
        r@ == hex_of(sha256_of(hash_input(views(argv@)))),
        r@.len() == 64,
{
    let material = hash_material(argv);
    let digest = sha256(material.as_slice());
    hex_lower(digest.as_slice())
}

/// Building the launch arguments twice from the same inputs gives the same
/// sequence, and so the same recorded digest: only the VM's name, disk,
/// memory, cpus, SSH port and forwards, and the backend, enter it.
pub proof fn lemma_build_deterministic(c1: ResolvedConfig, c2: ResolvedConfig, accel: AccelChoice)
    requires
        c1.vm.name@ == c2.vm.name@,
        c1.vm.disk@ == c2.vm.disk@,
        c1.vm.memory_mb == c2.vm.memory_mb,
        c1.vm.cpus == c2.vm.cpus,
        c1.network.ssh_host_port == c2.network.ssh_host_port,
        c1.network.forwards@ == c2.network.forwards@,
    ensures
        launch_args(c1, accel) == launch_args(c2, accel),
        hex_of(sha256_of(hash_input(launch_args(c1, accel)))) == hex_of(sha256_of(hash_input(launch_args(c2, accel)))),
{
}

} // verus!
