use vstd::prelude::*;

use crate::decimal::{append_decimal, decimal, is_digit_char, lemma_decimal_digits, lemma_decimal_injective};

verus! {

/// The fixed start of every temporary key file name.
pub open spec fn key_file_prefix() -> Seq<char> {
    seq!['.', 's', 'f', 't', 'p', '-', 'k', 'e', 'y', '-']
}

/// The name of the temporary key file of one authentication attempt:
/// the prefix, the process number, a dash and the attempt's sequence number.
pub open spec fn key_file_name_of(process: nat, sequence: nat) -> Seq<char> {
    key_file_prefix() + decimal(process) + seq!['-'] + decimal(sequence)
}

/// Builds the name of a temporary key file that no other attempt of any
/// process on the machine uses, given the process number and a sequence
/// number that the process never hands out twice.
pub fn key_file_name(process: u32, sequence: u64) -> (r: String)
    ensures
        r@ == key_file_name_of(process as nat, sequence as nat),
{
    proof {
        reveal_strlit(".sftp-key-");
        reveal_strlit("-");
    }
    let mut name = String::from_str(".sftp-key-");
    append_decimal(&mut name, process as u64);
    name.append("-");
    append_decimal(&mut name, sequence);
    assert(name@ =~= key_file_name_of(process as nat, sequence as nat));
    name
}

/// Two authentication attempts with different process or sequence numbers
/// never share a temporary key file name, so concurrent attempts cannot
/// overwrite or delete each other's key material.
pub proof fn lemma_key_file_names_distinct(p1: nat, s1: nat, p2: nat, s2: nat)
    requires
        p1 != p2 || s1 != s2,
    ensures
        key_file_name_of(p1, s1) != key_file_name_of(p2, s2),
{
    if key_file_name_of(p1, s1) == key_file_name_of(p2, s2) {
        let n = key_file_name_of(p1, s1);
        let k = key_file_prefix().len() as int;
        let a = decimal(p1);
        let la = a.len() as int;
        let c = decimal(p2);
        let lc = c.len() as int;
        lemma_decimal_digits(p1);
        lemma_decimal_digits(p2);
        assert(n[k + la] == '-');
        assert(key_file_name_of(p2, s2)[k + lc] == '-');
        if la < lc {
            assert(key_file_name_of(p2, s2)[k + la] == c[la]);
            assert(is_digit_char(c[la]));
        } else if lc < la {
            assert(n[k + lc] == a[lc]);
            assert(is_digit_char(a[lc]));
        } else {
            assert(a =~= n.subrange(k, k + la));
            assert(c =~= key_file_name_of(p2, s2).subrange(k, k + lc));
            lemma_decimal_injective(p1, p2);
            assert(decimal(s1) =~= n.subrange(k + la + 1, n.len() as int));
            assert(decimal(s2) =~= key_file_name_of(p2, s2).subrange(k + lc + 1, n.len() as int));
            lemma_decimal_injective(s1, s2);
        }
    }
}

} // verus!

verus! {

/// The path of a temporary key file: the directory, a separator and the
/// attempt's file name.
pub open spec fn key_file_path_of(dir: Seq<char>, process: nat, sequence: nat) -> Seq<char> {
    dir + seq!['/'] + key_file_name_of(process, sequence)
}

/// Builds the path of the temporary key file of one authentication attempt
/// inside `dir`.
pub fn key_file_path(dir: &str, process: u32, sequence: u64) -> (r: String)
    ensures
        r@ == key_file_path_of(dir@, process as nat, sequence as nat),
{
    proof {
        reveal_strlit("/");
    }
    let mut path = dir.to_owned();
    path.append("/");
    let name = key_file_name(process, sequence);
    path.append(name.as_str());
    path
}

/// Inside one directory, attempts with different process or sequence
/// numbers get different key file paths.
pub proof fn lemma_key_file_paths_distinct(dir: Seq<char>, p1: nat, s1: nat, p2: nat, s2: nat)
    requires
        p1 != p2 || s1 != s2,
    ensures
        key_file_path_of(dir, p1, s1) != key_file_path_of(dir, p2, s2),
{
    lemma_key_file_names_distinct(p1, s1, p2, s2);
    let k = dir.len() + 1int;
    if key_file_path_of(dir, p1, s1) == key_file_path_of(dir, p2, s2) {
        assert(key_file_name_of(p1, s1) =~= key_file_path_of(dir, p1, s1).subrange(
            k,
            key_file_path_of(dir, p1, s1).len() as int,
        ));
        assert(key_file_name_of(p2, s2) =~= key_file_path_of(dir, p2, s2).subrange(
            k,
            key_file_path_of(dir, p2, s2).len() as int,
        ));
    }
}

} // verus!
