use vstd::prelude::*;
use vstd::string::StringSliceAdditionalSpecFns;

verus! {

/// A recognized container format name, or `Other` for anything else.
///
/// Format names arriving at the boundary are matched case-insensitively
/// (ASCII), so `"GIF"`, `"gif"` and `"Gif"` all map to `Gif`.
#[derive(Clone, Copy, Debug, PartialEq, Eq, Structural)]
pub enum FormatName {
    Gif,
    Webp,
    Png,
    Apng,
    Psd,
    Other,
}

/// ASCII upper-case letters folded to lower case; every other byte unchanged.
pub open spec fn fold_ascii(b: u8) -> u8 {
    if 65 <= b && b <= 90 {
        (b + 32) as u8
    } else {
        b
    }
}

/// A byte sequence with every ASCII upper-case letter folded to lower case.
pub open spec fn folded(s: Seq<u8>) -> Seq<u8> {
    s.map_values(|b: u8| fold_ascii(b))
}

/// Which format a boundary-supplied name denotes, up to ASCII case.
pub open spec fn spec_format_of(s: Seq<u8>) -> FormatName {
    if folded(s) == seq![103u8, 105, 102] {
        FormatName::Gif
    } else if folded(s) == seq![119u8, 101, 98, 112] {
        FormatName::Webp
    } else if folded(s) == seq![112u8, 110, 103] {
        FormatName::Png
    } else if folded(s) == seq![97u8, 112, 110, 103] {
        FormatName::Apng
    } else if folded(s) == seq![112u8, 115, 100] {
        FormatName::Psd
    } else {
        FormatName::Other
    }
}

fn fold_byte(b: u8) -> (r: u8)
    ensures
        r == fold_ascii(b),
{
    if 65 <= b && b <= 90 {
        b + 32
    } else {
        b
    }
}

/// Compares the bytes of `s`, case-folded, against `name`, which must already
/// be lower case.
fn eq_folded(s: &[u8], name: &[u8]) -> (r: bool)
    ensures
        r == (folded(s@) == name@),
{
    if s.len() != name.len() {
        proof {
            assert(folded(s@).len() == s@.len());
        }
        return false;
    }
    let n = s.len();
    let mut i: usize = 0;
    while i < n
        invariant
            n == s@.len(),
            n == name@.len(),
            i <= n,
            forall|j: int| 0 <= j < i ==> fold_ascii(s@[j]) == name@[j],
        decreases n - i,
    {
        if fold_byte(s[i]) != name[i] {
            proof {
                assert(folded(s@)[i as int] == fold_ascii(s@[i as int]));
            }
            return false;
        }
        i = i + 1;
    }
    proof {
        assert(folded(s@) =~= name@);
    }
    true
}

/// Classifies a boundary-supplied format name, matching case-insensitively.
pub fn format_of(s: &str) -> (f: FormatName)
    ensures
        f == spec_format_of(s.spec_bytes()),
{
    let b = s.as_bytes();
    if eq_folded(b, &[103u8, 105, 102]) {
        proof {
            assert(seq![103u8, 105, 102] =~= [103u8, 105, 102]@);
        }
        FormatName::Gif
    } else if eq_folded(b, &[119u8, 101, 98, 112]) {
        proof {
            assert(seq![119u8, 101, 98, 112] =~= [119u8, 101, 98, 112]@);
        }
        FormatName::Webp
    } else if eq_folded(b, &[112u8, 110, 103]) {
        proof {
            assert(seq![112u8, 110, 103] =~= [112u8, 110, 103]@);
        }
        FormatName::Png
    } else if eq_folded(b, &[97u8, 112, 110, 103]) {
        proof {
            assert(seq![97u8, 112, 110, 103] =~= [97u8, 112, 110, 103]@);
        }
        FormatName::Apng
    } else if eq_folded(b, &[112u8, 115, 100]) {
        proof {
            assert(seq![112u8, 115, 100] =~= [112u8, 115, 100]@);
        }
        FormatName::Psd
    } else {
        proof {
            assert(seq![103u8, 105, 102] =~= [103u8, 105, 102]@);
            assert(seq![119u8, 101, 98, 112] =~= [119u8, 101, 98, 112]@);
            assert(seq![112u8, 110, 103] =~= [112u8, 110, 103]@);
            assert(seq![97u8, 112, 110, 103] =~= [97u8, 112, 110, 103]@);
            assert(seq![112u8, 115, 100] =~= [112u8, 115, 100]@);
        }
        FormatName::Other
    }
}

} // verus!
