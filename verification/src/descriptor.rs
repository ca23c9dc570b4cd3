//! The policy descriptor builder: the core of the wallet. Two parties'
//! key material is combined into a witness-script descriptor encoding
//! "party A may spend at any time; party B may spend once a relative
//! timelock of 25920 blocks has passed." The receive and change variants
//! are obtained from the same key pair and differ only in the change-flag
//! character embedded in each derivation path.

use vstd::prelude::*;
use crate::errors::WalletError;
use crate::keys::Keys;

verus! {

/// One party's derivation path: the party's fingerprint as origin, the
/// fixed hardened prefix 87h/1h/0h, the extended key, the change flag and
/// a wildcard index.
pub open spec fn path_chars(fp: Seq<char>, xprv: Seq<char>, change: char) -> Seq<char> {
    "["@ + fp + "/87h/1h/0h]"@ + xprv + "/"@ + seq![change] + "/*"@
}

/// The full descriptor: a witness-script hash around "A's signature, or
/// B's signature once 25920 blocks have passed since confirmation".
pub open spec fn descriptor_chars(
    afp: Seq<char>,
    ax: Seq<char>,
    bfp: Seq<char>,
    bx: Seq<char>,
    change: char,
) -> Seq<char> {
    "wsh(or_d(pk("@ + path_chars(afp, ax, change) + "),and_v(v:pk("@
        + path_chars(bfp, bx, change) + "),older(25920))))"@
}

/// Relies on String::push: appends one character.
#[verifier::external_body]
fn push_char(s: &mut String, c: char)
    ensures
        final(s)@ == old(s)@ + seq![c],
{
    s.push(c)
}

/// Appends one party's derivation path to the descriptor under
/// construction.
fn append_path(d: &mut String, fp: &str, xprv: &str, change: char)
    ensures
        final(d)@ == old(d)@ + path_chars(fp@, xprv@, change),
{
    d.append("[");
    d.append(fp);
    d.append("/87h/1h/0h]");
    d.append(xprv);
    d.append("/");
    push_char(d, change);
    d.append("/*");
    proof {
        assert(d@ =~= old(d)@ + path_chars(fp@, xprv@, change));
    }
}

/// Builds the spending-policy descriptor for the given change flag from
/// the two parties' key material. Pure string construction: the result is
/// exactly the descriptor text determined by the two identities and the
/// flag. Empty key material is rejected; nothing else can fail.
pub fn get_descriptor(alice: &Keys, bob: &Keys, change: &char) -> (r: Result<String, WalletError>)
    requires
        *change == '0' || *change == '1',
    ensures
        r matches Ok(d) ==> d@ == descriptor_chars(
            alice.fingerprint@,
            alice.xprv@,
            bob.fingerprint@,
            bob.xprv@,
            *change,
        ),
        r is Ok <==> (alice.fingerprint@.len() > 0 && alice.xprv@.len() > 0
            && bob.fingerprint@.len() > 0 && bob.xprv@.len() > 0),
        r is Err ==> (r matches Err(e) && e == WalletError::DescriptorBuild),
{
    if alice.fingerprint.as_str().is_empty() || alice.xprv.as_str().is_empty()
        || bob.fingerprint.as_str().is_empty() || bob.xprv.as_str().is_empty() {
        return Err(WalletError::DescriptorBuild);
    }
    let mut d = String::new();
    d.append("wsh(or_d(pk(");
    append_path(&mut d, alice.fingerprint.as_str(), alice.xprv.as_str(), *change);
    d.append("),and_v(v:pk(");
    append_path(&mut d, bob.fingerprint.as_str(), bob.xprv.as_str(), *change);
    d.append("),older(25920))))");
    proof {
        assert(d@ =~= descriptor_chars(
            alice.fingerprint@,
            alice.xprv@,
            bob.fingerprint@,
            bob.xprv@,
            *change,
        ));
    }
    Ok(d)
}

/// Everything of the descriptor before the first change flag: fixed text
/// and party A's fingerprint and key.
pub open spec fn descriptor_head(afp: Seq<char>, ax: Seq<char>) -> Seq<char> {
    "wsh(or_d(pk(["@ + afp + "/87h/1h/0h]"@ + ax + "/"@
}

/// Everything between the two change flags: fixed text and party B's
/// fingerprint and key.
pub open spec fn descriptor_mid(bfp: Seq<char>, bx: Seq<char>) -> Seq<char> {
    "/*),and_v(v:pk(["@ + bfp + "/87h/1h/0h]"@ + bx + "/"@
}

/// Everything of the descriptor after the second change flag.
pub open spec fn descriptor_tail() -> Seq<char> {
    "/*),older(25920))))"@
}

/// The descriptor splits around the two occurrences of the change flag:
/// head, mid and tail depend only on the two identities, so descriptors
/// built from the same key pair with different flags differ exactly in
/// the flag character embedded once per derivation path.
pub proof fn lemma_descriptor_change_flag(
    afp: Seq<char>,
    ax: Seq<char>,
    bfp: Seq<char>,
    bx: Seq<char>,
    c: char,
)
    ensures
        descriptor_chars(afp, ax, bfp, bx, c) == descriptor_head(afp, ax) + seq![c]
            + descriptor_mid(bfp, bx) + seq![c] + descriptor_tail(),
{
    reveal_strlit("wsh(or_d(pk(");
    reveal_strlit("wsh(or_d(pk([");
    reveal_strlit("[");
    reveal_strlit("/87h/1h/0h]");
    reveal_strlit("/");
    reveal_strlit("/*");
    reveal_strlit("),and_v(v:pk(");
    reveal_strlit("/*),and_v(v:pk([");
    reveal_strlit("),older(25920))))");
    reveal_strlit("/*),older(25920))))");
    assert(descriptor_chars(afp, ax, bfp, bx, c) =~= descriptor_head(afp, ax) + seq![c]
        + descriptor_mid(bfp, bx) + seq![c] + descriptor_tail());
}

/// Descriptors built from the same two identities with different change
/// flags have the same length and agree everywhere except at the two
/// positions where the flag is embedded.
pub proof fn lemma_change_flag_difference(
    afp: Seq<char>,
    ax: Seq<char>,
    bfp: Seq<char>,
    bx: Seq<char>,
    c0: char,
    c1: char,
)
    ensures
        descriptor_chars(afp, ax, bfp, bx, c0).len() == descriptor_chars(
            afp,
            ax,
            bfp,
            bx,
            c1,
        ).len(),
        forall|i: int|
            0 <= i < descriptor_chars(afp, ax, bfp, bx, c0).len() && descriptor_chars(
                afp,
                ax,
                bfp,
                bx,
                c0,
            )[i] != descriptor_chars(afp, ax, bfp, bx, c1)[i] ==> descriptor_chars(
                afp,
                ax,
                bfp,
                bx,
                c0,
            )[i] == c0 && descriptor_chars(afp, ax, bfp, bx, c1)[i] == c1,
{
    lemma_descriptor_change_flag(afp, ax, bfp, bx, c0);
    lemma_descriptor_change_flag(afp, ax, bfp, bx, c1);
}

} // verus!
