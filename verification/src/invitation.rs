//! Accepting and rejecting a team invitation.
//!
//! An invitation link carries a selector, which finds the stored invitation, and a
//! verifier, whose SHA-256 digest the store keeps in URL-safe Base64. The handlers
//! alternate reads and writes of the store with decisions; the decisions are the
//! state machine [`InviteFlow`], which the caller drives: it performs the
//! [`InviteAction`] that the machine asks for and hands back the [`InviteEvent`]
//! that the store answered.
use vstd::prelude::*;
use vstd::string::*;

use crate::error::{CustomError, ErrorModel};
use crate::foreign::{base64_url_decode, base64_url_encode, decode_url_safe, encode_url_safe, sha256, sha256_digest, utf8_len};

verus! {

// ---------------------------------------------------------------------------
// Records of the store that the decisions read
// ---------------------------------------------------------------------------

/// The path parameters of an invitation link.
pub struct Invite {
    pub invite_selector: String,
    pub invite_validator: String,
}

/// A stored invitation.
pub struct Invitation {
    pub team_id: i32,
    pub email: String,
    pub first_name: String,
    pub last_name: String,
    pub invitation_verifier_hash: String,
    pub roles: Vec<String>,
}

/// The model of an [`Invitation`].
pub struct InvitationModel {
    pub team_id: i32,
    pub email: Seq<char>,
    pub first_name: Seq<char>,
    pub last_name: Seq<char>,
    pub verifier_hash: Seq<char>,
    pub roles: Seq<Seq<char>>,
}

/// The model of a list of strings.
pub open spec fn strings_view(v: Vec<String>) -> Seq<Seq<char>> {
    v@.map_values(|s: String| s@)
}

/// The model of an optional string.
pub open spec fn opt_view(o: Option<String>) -> Option<Seq<char>> {
    match o {
        Some(s) => Some(s@),
        None => None,
    }
}

impl View for Invitation {
    type V = InvitationModel;

    open spec fn view(&self) -> InvitationModel {
        InvitationModel {
            team_id: self.team_id,
            email: self.email@,
            first_name: self.first_name@,
            last_name: self.last_name@,
            verifier_hash: self.invitation_verifier_hash@,
            roles: strings_view(self.roles),
        }
    }
}

/// A stored user.
pub struct UserRecord {
    pub id: i32,
    pub email: String,
    pub first_name: Option<String>,
    pub last_name: Option<String>,
}

/// The model of a [`UserRecord`].
pub struct UserModel {
    pub id: i32,
    pub email: Seq<char>,
    pub first_name: Option<Seq<char>>,
    pub last_name: Option<Seq<char>>,
}

impl View for UserRecord {
    type V = UserModel;

    open spec fn view(&self) -> UserModel {
        UserModel {
            id: self.id,
            email: self.email@,
            first_name: opt_view(self.first_name),
            last_name: opt_view(self.last_name),
        }
    }
}

// ---------------------------------------------------------------------------
// The single decisions
// ---------------------------------------------------------------------------

/// The hash that the store keeps of a verifier: the URL-safe Base64 text of the
/// SHA-256 digest of the bytes that the verifier decodes to; or, where the verifier
/// is not URL-safe Base64, the text of the decoding error.
pub open spec fn verifier_hash_of(verifier: Seq<char>) -> Result<Seq<char>, Seq<char>> {
    match base64_url_decode(verifier) {
        Ok(bytes) => Ok(base64_url_encode(sha256_digest(bytes))),
        Err(message) => Err(message),
    }
}

/// Decodes the verifier of an invitation link and hashes it as the store does.
/// A verifier that does not decode is a `FaultySetup` error with the decoder's text.
pub fn hash_invitation_verifier(verifier: &str) -> (r: Result<String, CustomError>)
    requires
        utf8_len(verifier@) <= isize::MAX,
    ensures
        match verifier_hash_of(verifier@) {
            Ok(hash) => r matches Ok(s) && s@ == hash,
            Err(message) => r matches Err(e) && e@ == ErrorModel::FaultySetup(message),
        },
{
    match decode_url_safe(verifier) {
        Ok(bytes) => {
            let digest = sha256(bytes.as_slice());
            Ok(encode_url_safe(digest.as_slice()))
        },
        Err(message) => Err(CustomError::FaultySetup(message)),
    }
}

/// The link's verifier is accepted when its hash is the stored hash, or when the
/// verifier itself equals the stored hash.
pub open spec fn verifier_accepted(stored_hash: Seq<char>, computed_hash: Seq<char>, verifier: Seq<char>) -> bool {
    stored_hash == computed_hash || verifier == stored_hash
}

/// Whether the link's verifier is accepted for the stored hash.
pub fn verifier_matches(stored_hash: &String, computed_hash: &String, verifier: &String) -> (r: bool)
    ensures
        r == verifier_accepted(stored_hash@, computed_hash@, verifier@),
{
    *stored_hash == *computed_hash || *verifier == *stored_hash
}

/// A team is full when it has at least as many members as its tier allows, the limit
/// read as a `usize`, or when the tier allows no member at all.
pub open spec fn team_is_full(members: usize, team_limit: i32) -> bool {
    members >= team_limit as usize || team_limit == 0
}

/// Whether a team of `members` members under a tier limit of `team_limit` is full.
pub fn team_full(members: usize, team_limit: i32) -> (r: bool)
    ensures
        r == team_is_full(members, team_limit),
{
    members >= team_limit as usize || team_limit == 0
}

/// A user has not named themselves when both names are unset.
pub open spec fn unnamed(user: UserModel) -> bool {
    user.first_name is None && user.last_name is None
}

/// A tier with a positive member limit fills up exactly when the team has that many
/// members; a tier with a limit of zero takes no one; a negative limit is compared as
/// the `usize` it converts to.
pub proof fn law_team_full_limit(members: usize, team_limit: i32)
    ensures
        team_limit > 0 ==> (team_is_full(members, team_limit) <==> members >= team_limit),
        team_limit == 0 ==> team_is_full(members, team_limit),
        team_limit < 0 ==> (team_is_full(members, team_limit) <==> members >= team_limit as usize),
{
}

/// A user counts as unnamed exactly when neither a first nor a last name is set.
pub proof fn law_unnamed(user: UserModel)
    ensures
        unnamed(user) <==> user.first_name is None && user.last_name is None,
        user.first_name is Some ==> !unnamed(user),
        user.last_name is Some ==> !unnamed(user),
{
}

/// A link is accepted when its verifier hashes to the stored hash, or is the stored hash;
/// a different verifier whose hash differs from the stored one is refused.
pub proof fn law_verifier_accepted(stored_hash: Seq<char>, computed_hash: Seq<char>, verifier: Seq<char>)
    ensures
        stored_hash == computed_hash ==> verifier_accepted(stored_hash, computed_hash, verifier),
        verifier == stored_hash ==> verifier_accepted(stored_hash, computed_hash, verifier),
        stored_hash != computed_hash && verifier != stored_hash ==> !verifier_accepted(stored_hash, computed_hash, verifier),
{
}

/// The hash of a verifier is the URL-safe Base64 of the SHA-256 digest of the bytes it
/// decodes to; a verifier that does not decode has the decoder's error instead.
pub proof fn law_verifier_hash(verifier: Seq<char>)
    ensures
        base64_url_decode(verifier) matches Ok(bytes)
            ==> verifier_hash_of(verifier) == Ok::<Seq<char>, Seq<char>>(base64_url_encode(sha256_digest(bytes))),
        base64_url_decode(verifier) matches Err(message)
            ==> verifier_hash_of(verifier) == Err::<Seq<char>, Seq<char>>(message),
{
}

} // verus!
