//! Naming output files after a store's modification time.

use vstd::prelude::*;

use crate::json_text::{chars_to_string, dec_rep, write_dec};

verus! {

broadcast use vstd::seq::group_seq_axioms, vstd::std_specs::vec::group_vec_axioms;

/// The decimal digits of `n`, left-padded with zeros to at least
/// `w` characters.
pub open spec fn spec_padded(n: nat, w: nat) -> Seq<char> {
    if dec_rep(n).len() >= w {
        dec_rep(n)
    } else {
        Seq::new((w - dec_rep(n).len()) as nat, |i: int| '0') + dec_rep(n)
    }
}

/// A modification timestamp as it appears in an output file name:
/// year, month, day, hour, minute and second, zero-padded and joined
/// by underscores.
pub open spec fn spec_mtime_fmt(y: nat, mo: nat, d: nat, h: nat, mi: nat, s: nat) -> Seq<char> {
    spec_padded(y, 4) + seq!['_'] + spec_padded(mo, 2) + seq!['_'] + spec_padded(d, 2) + seq!['_']
        + spec_padded(h, 2) + seq!['_'] + spec_padded(mi, 2) + seq!['_'] + spec_padded(s, 2)
}

/// Appends the decimal digits of `n`, left-padded with zeros to at
/// least `w` characters.
fn push_padded(n: u32, w: usize, out: &mut Vec<char>)
    ensures
        final(out)@ == old(out)@ + spec_padded(n as nat, w as nat),
{
    let mut digits: Vec<char> = Vec::new();
    write_dec(n as u64, &mut digits);
    let dl = digits.len();
    let mut k: usize = dl;
    while k < w
        invariant
            dl <= k,
            dl == digits@.len(),
            k <= w || k == dl,
            digits@ == dec_rep(n as nat),
            out@ == old(out)@ + Seq::new((k - dl) as nat, |i: int| '0'),
        decreases w - k,
    {
        out.push('0');
        k += 1;
        proof {
            assert(out@ =~= old(out)@ + Seq::new((k - dl) as nat, |i: int| '0'));
        }
    }
    let mut moved = digits;
    out.append(&mut moved);
    proof {
        assert(out@ =~= old(out)@ + spec_padded(n as nat, w as nat));
    }
}

/// Formats a modification timestamp for an output file name.
pub fn mtime_fmt(y: u32, mo: u32, d: u32, h: u32, mi: u32, s: u32) -> (r: String)
    ensures
        r@ == spec_mtime_fmt(y as nat, mo as nat, d as nat, h as nat, mi as nat, s as nat),
{
    let mut out: Vec<char> = Vec::new();
    push_padded(y, 4, &mut out);
    out.push('_');
    push_padded(mo, 2, &mut out);
    out.push('_');
    push_padded(d, 2, &mut out);
    out.push('_');
    push_padded(h, 2, &mut out);
    out.push('_');
    push_padded(mi, 2, &mut out);
    out.push('_');
    push_padded(s, 2, &mut out);
    proof {
        assert(out@ =~= spec_mtime_fmt(
            y as nat,
            mo as nat,
            d as nat,
            h as nat,
            mi as nat,
            s as nat,
        ));
    }
    chars_to_string(&out)
}

/// The default name of a copied store, from the source store's
/// formatted modification time.
pub open spec fn spec_default_output_name(mtime: Seq<char>) -> Seq<char> {
    "session_buddy_"@ + mtime + ".db"@
}

/// Where a copied store lands: into a named file as given, into a
/// directory under the default name, or, with no destination named,
/// under the default name in the working directory.
pub open spec fn spec_output_filename(
    mtime: Seq<char>,
    out: Option<Seq<char>>,
    out_is_dir: bool,
) -> Seq<char> {
    match out {
        Option::None => spec_default_output_name(mtime),
        Option::Some(p) => if out_is_dir {
            p + "/"@ + spec_default_output_name(mtime)
        } else {
            p
        },
    }
}

/// Picks the output file name for a copy of a store whose formatted
/// modification time is `mtime`: `out` itself when it names a file,
/// the default name inside it when it names a directory, and the
/// default name alone when nothing is named.
pub fn get_output_filename(mtime: &str, out: Option<String>, out_is_dir: bool) -> (r: String)
    ensures
        r@ == spec_output_filename(mtime@, out.deep_view(), out_is_dir),
{
    match out {
        Option::None => {
            let r = String::from_str("session_buddy_").concat(mtime).concat(".db");
            proof {
                assert(r@ =~= spec_default_output_name(mtime@));
            }
            r
        },
        Option::Some(p) => {
            if out_is_dir {
                let r = p.concat("/").concat("session_buddy_").concat(mtime).concat(".db");
                proof {
                    assert(r@ =~= spec_output_filename(mtime@, Some(p@), out_is_dir));
                }
                r
            } else {
                p
            }
        },
    }
}

} // verus!
