//! Bundle identifier derivation: the string forms of the member signatures
//! are joined with a literal comma (no trailing separator), the SHA-256
//! digest of the joined string's UTF-8 bytes is taken, and the digest is
//! hex-encoded in lowercase. The identifier is a pure function of the
//! ordered signature list.

use vstd::prelude::*;
use vstd::string::StringExecFns;
use sha2::Digest;

verus! {

/// The SHA-256 digest (32 bytes) of a string's UTF-8 bytes. Left abstract:
/// the digest algorithm itself is not modeled here.
pub uninterp spec fn sha256_of(s: Seq<char>) -> Seq<u8>;

/// Relies on sha2::Sha256 through Digest::digest: the SHA-256 digest of the
/// input bytes, always 32 bytes long, a function of the input alone.
#[verifier::external_body]
fn sha256_digest(s: &str) -> (r: Vec<u8>)
    ensures
        r@ == sha256_of(s@),
        r@.len() == 32,
{
    sha2::Sha256::digest(s.as_bytes()).to_vec()
}

/// The character for one hexadecimal digit, lowercase.
pub open spec fn hex_digit(n: nat) -> char {
    if n == 0 {
        '0'
    } else if n == 1 {
        '1'
    } else if n == 2 {
        '2'
    } else if n == 3 {
        '3'
    } else if n == 4 {
        '4'
    } else if n == 5 {
        '5'
    } else if n == 6 {
        '6'
    } else if n == 7 {
        '7'
    } else if n == 8 {
        '8'
    } else if n == 9 {
        '9'
    } else if n == 10 {
        'a'
    } else if n == 11 {
        'b'
    } else if n == 12 {
        'c'
    } else if n == 13 {
        'd'
    } else if n == 14 {
        'e'
    } else {
        'f'
    }
}

/// Two lowercase hex digits for one byte, most significant first.
pub open spec fn hex_of_byte(b: u8) -> Seq<char> {
    seq![hex_digit((b / 16) as nat), hex_digit((b % 16) as nat)]
}

/// Lowercase hex encoding of a byte string, no prefix.
pub open spec fn hex_of(bytes: Seq<u8>) -> Seq<char>
    decreases bytes.len(),
{
    if bytes.len() == 0 {
        Seq::empty()
    } else {
        hex_of(bytes.drop_last()) + hex_of_byte(bytes.last())
    }
}

/// A hex encoding has two characters per byte.
pub proof fn lemma_hex_of_len(bytes: Seq<u8>)
    ensures
        hex_of(bytes).len() == 2 * bytes.len(),
    decreases bytes.len(),
{
    if bytes.len() > 0 {
        lemma_hex_of_len(bytes.drop_last());
    }
}

/// Relies on hex::encode: lowercase hexadecimal, two digits per byte, most
/// significant digit first.
#[verifier::external_body]
fn hex_encode(bytes: &Vec<u8>) -> (r: String)
    ensures
        r@ == hex_of(bytes@),
{
    hex::encode(bytes)
}

/// What follows the first entry in a comma-joined list: one leading comma
/// before each remaining entry.
pub open spec fn tail_joined(sigs: Seq<Seq<char>>) -> Seq<char>
    decreases sigs.len(),
{
    if sigs.len() == 0 {
        Seq::empty()
    } else {
        seq![','] + sigs[0] + tail_joined(sigs.skip(1))
    }
}

/// The comma-joined form of a signature list: entries in order, a single
/// comma between neighbours, no separator for a single entry and none
/// trailing.
pub open spec fn joined(sigs: Seq<Seq<char>>) -> Seq<char> {
    if sigs.len() == 0 {
        Seq::empty()
    } else {
        sigs[0] + tail_joined(sigs.skip(1))
    }
}

/// The bundle identifier over the ordered signature strings: lowercase hex
/// of the SHA-256 digest of the comma-joined list.
pub open spec fn bundle_id_of(sigs: Seq<Seq<char>>) -> Seq<char> {
    hex_of(sha256_of(joined(sigs)))
}

/// Joins the signature strings with a literal comma, no trailing separator.
pub fn join_signatures(signatures: &Vec<String>) -> (r: String)
    ensures
        r@ == joined(signatures.deep_view()),
{
    let ghost views = signatures.deep_view();
    let mut r = String::new();
    if signatures.len() == 0 {
        return r;
    }
    r.append(signatures[0].as_str());
    let mut i: usize = 1;
    proof {
        reveal_strlit(",");
        assert(r@ =~= views[0]);
        assert(views.skip(1) =~= views.skip(1));
    }
    while i < signatures.len()
        invariant
            1 <= i <= signatures@.len(),
            views == signatures.deep_view(),
            views.len() == signatures@.len(),
            joined(views) == r@ + tail_joined(views.skip(i as int)),
        decreases signatures@.len() - i,
    {
        let ghost r_before = r@;
        r.append(",");
        r.append(signatures[i].as_str());
        proof {
            reveal_strlit(",");
            assert(","@ =~= seq![',']);
            assert(views.skip(i as int)[0] == views[i as int]);
            assert(views.skip(i as int).skip(1) =~= views.skip(i + 1));
            assert(tail_joined(views.skip(i as int)) == seq![','] + views[i as int]
                + tail_joined(views.skip(i + 1)));
            assert(r@ =~= r_before + (seq![','] + views[i as int]));
            assert(r_before + (seq![','] + views[i as int]) + tail_joined(views.skip(i + 1)) =~= r_before
                + tail_joined(views.skip(i as int)));
        }
        i += 1;
    }
    proof {
        assert(views.skip(i as int) =~= Seq::<Seq<char>>::empty());
        assert(r@ + tail_joined(views.skip(i as int)) =~= r@);
    }
    r
}

/// Derives the bundle identifier from the ordered signature strings: a
/// 64-character lowercase hex string.
pub fn derive_bundle_id(signatures: &Vec<String>) -> (r: String)
    ensures
        r@ == bundle_id_of(signatures.deep_view()),
        r@.len() == 64,
{
    let joined_form = join_signatures(signatures);
    let digest = sha256_digest(joined_form.as_str());
    let r = hex_encode(&digest);
    proof {
        lemma_hex_of_len(digest@);
    }
    r
}

/// A string with no comma in it, such as a base-58 signature string.
pub open spec fn comma_free(s: Seq<char>) -> bool {
    forall|i: int| 0 <= i < s.len() ==> s[i] != ','
}

/// A list whose entries are non-empty, comma-free strings: the shape every
/// list of signature strings has.
pub open spec fn plain_signature_list(sigs: Seq<Seq<char>>) -> bool {
    forall|i: int| 0 <= i < sigs.len() ==> (#[trigger] sigs[i]).len() > 0 && comma_free(sigs[i])
}

/// Identifier derivation is deterministic: equal ordered signature lists
/// give equal identifiers.
pub proof fn lemma_bundle_id_deterministic(a: Seq<Seq<char>>, b: Seq<Seq<char>>)
    requires
        a == b,
    ensures
        bundle_id_of(a) == bundle_id_of(b),
{
}

/// Order sensitivity at the digest-input level: two different lists of
/// non-empty, comma-free signature strings (in particular, a list and a
/// reordering of it that is not the identity) always produce different
/// comma-joined digest inputs. Distinctness of the identifiers themselves
/// then rests on collision resistance of the digest, which is not modeled.
pub proof fn lemma_joined_injective(a: Seq<Seq<char>>, b: Seq<Seq<char>>)
    requires
        plain_signature_list(a),
        plain_signature_list(b),
        joined(a) == joined(b),
    ensures
        a == b,
    decreases a.len(),
{
    if a.len() == 0 || b.len() == 0 {
        if a.len() == 0 && b.len() > 0 {
            assert(joined(b).len() >= b[0].len());
            assert(false);
        }
        if b.len() == 0 && a.len() > 0 {
            assert(joined(a).len() >= a[0].len());
            assert(false);
        }
        assert(a =~= b);
    } else {
        lemma_joined_heads_equal(a, b);
        assert(a[0] == b[0]);
        let la = a[0].len() as int;
        assert(joined(a).len() == la + tail_joined(a.skip(1)).len());
        assert(joined(b).len() == la + tail_joined(b.skip(1)).len());
        assert(tail_joined(a.skip(1)).len() == tail_joined(b.skip(1)).len());
        assert(tail_joined(a.skip(1)) =~= tail_joined(b.skip(1))) by {
            assert forall|k: int| 0 <= k < tail_joined(a.skip(1)).len() implies tail_joined(
                a.skip(1),
            )[k] == tail_joined(b.skip(1))[k] by {
                assert(joined(a)[la + k] == tail_joined(a.skip(1))[k]);
                assert(joined(b)[la + k] == tail_joined(b.skip(1))[k]);
            }
        }
        if a.len() == 1 && b.len() == 1 {
            assert(a =~= b);
        } else if a.len() == 1 {
            assert(tail_joined(b.skip(1)).len() >= 1);
            assert(tail_joined(a.skip(1)).len() == 0);
            assert(false);
        } else if b.len() == 1 {
            assert(tail_joined(a.skip(1)).len() >= 1);
            assert(false);
        } else {
            let at = a.skip(1);
            let bt = b.skip(1);
            assert(tail_joined(at) == seq![','] + joined(at)) by {
                assert(seq![','] + at[0] + tail_joined(at.skip(1)) =~= seq![','] + (at[0]
                    + tail_joined(at.skip(1))));
            }
            assert(tail_joined(bt) == seq![','] + joined(bt)) by {
                assert(seq![','] + bt[0] + tail_joined(bt.skip(1)) =~= seq![','] + (bt[0]
                    + tail_joined(bt.skip(1))));
            }
            assert(joined(at) =~= joined(bt)) by {
                assert forall|k: int| 0 <= k < joined(at).len() implies joined(at)[k] == joined(
                    bt,
                )[k] by {
                    assert(tail_joined(at)[1 + k] == joined(at)[k]);
                    assert(tail_joined(bt)[1 + k] == joined(bt)[k]);
                }
            }
            assert(plain_signature_list(at)) by {
                assert(forall|i: int| 0 <= i < at.len() ==> at[i] == a[i + 1]);
            }
            assert(plain_signature_list(bt)) by {
                assert(forall|i: int| 0 <= i < bt.len() ==> bt[i] == b[i + 1]);
            }
            lemma_joined_injective(at, bt);
            assert(a.len() == b.len());
            assert forall|i: int| 0 <= i < a.len() implies a[i] == b[i] by {
                if i >= 1 {
                    assert(at[i - 1] == a[i]);
                    assert(bt[i - 1] == b[i]);
                }
            }
            assert(a =~= b);
        }
    }
}

/// Order sensitivity, stated directly: changing a list of non-empty,
/// comma-free signature strings — in particular permuting two unequal
/// signatures — changes the digest input the identifier is computed over.
pub proof fn lemma_joined_order_sensitive(a: Seq<Seq<char>>, b: Seq<Seq<char>>)
    requires
        plain_signature_list(a),
        plain_signature_list(b),
        a != b,
    ensures
        joined(a) != joined(b),
{
    if joined(a) == joined(b) {
        lemma_joined_injective(a, b);
    }
}

/// Two non-empty plain signature lists with equal joined forms start with
/// the same signature string.
proof fn lemma_joined_heads_equal(a: Seq<Seq<char>>, b: Seq<Seq<char>>)
    requires
        plain_signature_list(a),
        plain_signature_list(b),
        a.len() > 0,
        b.len() > 0,
        joined(a) == joined(b),
    ensures
        a[0] == b[0],
{
    let la = a[0].len() as int;
    let lb = b[0].len() as int;
    lemma_joined_head_bound(a, b);
    lemma_joined_head_bound(b, a);
    assert(la == lb);
    assert(a[0] =~= b[0]) by {
        assert forall|k: int| 0 <= k < la implies a[0][k] == b[0][k] by {
            assert(joined(a)[k] == a[0][k]);
            assert(joined(b)[k] == b[0][k]);
        }
    }
}

/// Helper for the head lemma: the first entry of `a` cannot be strictly
/// shorter than the first entry of `b` when the joined forms agree, since
/// the position right after `a`'s first entry holds either nothing or a
/// comma on `a`'s side, and a non-comma character on `b`'s side.
proof fn lemma_joined_head_bound(a: Seq<Seq<char>>, b: Seq<Seq<char>>)
    requires
        plain_signature_list(a),
        plain_signature_list(b),
        a.len() > 0,
        b.len() > 0,
        joined(a) == joined(b),
    ensures
        a[0].len() >= b[0].len(),
{
    let la = a[0].len() as int;
    if la < b[0].len() {
        assert(joined(b)[la] == b[0][la]);
        assert(b[0][la] != ',');
        if a.len() == 1 {
            assert(joined(a).len() == la);
            assert(joined(b).len() >= b[0].len());
        } else {
            assert(a.skip(1).len() > 0);
            assert(tail_joined(a.skip(1))[0] == ',');
            assert(joined(a)[la] == tail_joined(a.skip(1))[0]);
        }
    }
}

} // verus!
