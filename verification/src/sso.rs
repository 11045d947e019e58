//! SSO and Hive integration: membership types, the member record that
//! Karon works with, and the requests it makes to the membership services.

use vstd::prelude::*;
use crate::text::{concat2, concat3, str_eq};
use crate::voteit::{
    has_flag, Permissions, PARTICIPANT_BIT, DISCUSSER_BIT, PROPOSER_BIT, VOTER_BIT, MODERATOR_BIT,
};

verus! {

/// The types of memberships a chapter member can have.
#[derive(Copy, Clone, Debug, PartialEq, Eq, Structural)]
pub enum MemberTypes {
    Ordinary,
    Alumni,
    Guest,
    Junior,
    Honorary,
    NonMember,
}

/// The membership type that the membership database's text names:
/// anything it does not name is a non-member.
pub open spec fn membership_of(s: Seq<char>) -> MemberTypes {
    if s == "honorary"@ {
        MemberTypes::Honorary
    } else if s == "junior"@ {
        MemberTypes::Junior
    } else if s == "guest"@ {
        MemberTypes::Guest
    } else if s == "alumni"@ {
        MemberTypes::Alumni
    } else if s == "ordinary"@ {
        MemberTypes::Ordinary
    } else {
        MemberTypes::NonMember
    }
}

/// The name of a membership type, as the membership database writes it.
pub open spec fn member_type_name(t: MemberTypes) -> Seq<char> {
    match t {
        MemberTypes::Ordinary => "ordinary"@,
        MemberTypes::Alumni => "alumni"@,
        MemberTypes::Guest => "guest"@,
        MemberTypes::Junior => "junior"@,
        MemberTypes::Honorary => "honorary"@,
        MemberTypes::NonMember => "non-member"@,
    }
}

/// The VoteIT permission bits of a membership type: ordinary members
/// take part, speak, propose and vote; alumni take part, speak and
/// propose; guests, juniors and honorary members take part and speak;
/// non-members get nothing.
pub open spec fn member_permission_bits(t: MemberTypes) -> u8 {
    match t {
        MemberTypes::Ordinary => 15,
        MemberTypes::Alumni => 7,
        MemberTypes::Guest => 3,
        MemberTypes::Junior => 3,
        MemberTypes::Honorary => 3,
        MemberTypes::NonMember => 0,
    }
}

impl MemberTypes {
    /// The name of the membership type, as the membership database writes
    /// it (`"non-member"` for a non-member).
    pub fn as_str(&self) -> (r: &'static str)
        ensures
            r@ == member_type_name(*self),
    {
        match self {
            MemberTypes::Ordinary => "ordinary",
            MemberTypes::Alumni => "alumni",
            MemberTypes::Guest => "guest",
            MemberTypes::Junior => "junior",
            MemberTypes::Honorary => "honorary",
            MemberTypes::NonMember => "non-member",
        }
    }
}

impl vstd::std_specs::convert::FromSpecImpl<MemberTypes> for Permissions {
    open spec fn obeys_from_spec() -> bool {
        true
    }

    open spec fn from_spec(v: MemberTypes) -> Permissions {
        Permissions { bits: member_permission_bits(v) }
    }
}

impl From<MemberTypes> for Permissions {
    /// The VoteIT permissions that a membership type grants.
    fn from(value: MemberTypes) -> (r: Self) {
        let r = match value {
            MemberTypes::Ordinary => {
                Permissions::default().union(Permissions::discusser()).union(
                    Permissions::proposer(),
                ).union(Permissions::voter())
            },
            MemberTypes::Alumni => {
                Permissions::default().union(Permissions::discusser()).union(
                    Permissions::proposer(),
                )
            },
            MemberTypes::Guest => Permissions::default().union(Permissions::discusser()),
            MemberTypes::Junior => Permissions::default().union(Permissions::discusser()),
            MemberTypes::Honorary => Permissions::default().union(Permissions::discusser()),
            MemberTypes::NonMember => Permissions::no_permissions(),
        };
        assert(PARTICIPANT_BIT | DISCUSSER_BIT == 3u8) by (bit_vector);
        assert(PARTICIPANT_BIT | DISCUSSER_BIT | PROPOSER_BIT == 7u8) by (bit_vector);
        assert(PARTICIPANT_BIT | DISCUSSER_BIT | PROPOSER_BIT | VOTER_BIT == 15u8) by (bit_vector);
        r
    }
}

impl vstd::std_specs::convert::FromSpecImpl<&str> for MemberTypes {
    open spec fn obeys_from_spec() -> bool {
        true
    }

    open spec fn from_spec(v: &str) -> MemberTypes {
        membership_of(v@)
    }
}

impl From<&str> for MemberTypes {
    /// The membership type that the membership database's text names.
    fn from(value: &str) -> (r: Self) {
        if str_eq(value, "honorary") {
            MemberTypes::Honorary
        } else if str_eq(value, "junior") {
            MemberTypes::Junior
        } else if str_eq(value, "guest") {
            MemberTypes::Guest
        } else if str_eq(value, "alumni") {
            MemberTypes::Alumni
        } else if str_eq(value, "ordinary") {
            MemberTypes::Ordinary
        } else {
            MemberTypes::NonMember
        }
    }
}


/// Representation of a member with the necessary information for Karon.
#[derive(Debug, Clone, PartialEq, Eq)]
pub struct Member {
    pub kth_id: String,
    pub email: String,
    pub member_type: MemberTypes,
}

/// Representation of a member in the chapter's membership database.
#[derive(Debug, Clone, PartialEq, Eq)]
pub struct SsoMember {
    pub kthid: String,
    pub membership: String,
}

impl Member {
    /// The member that a membership database record describes: the
    /// KTH id is kept, the e-mail address is `<kthid>@kth.se` and the
    /// membership type is read from the membership text.
    pub fn from(value: SsoMember) -> (r: Member)
        ensures
            r.kth_id@ == value.kthid@,
            r.email@ == value.kthid@ + "@kth.se"@,
            r.member_type == membership_of(value.membership@),
    {
        let email = concat2(value.kthid.as_str(), "@kth.se");
        let member_type = MemberTypes::from(value.membership.as_str());
        Member { kth_id: value.kthid, email, member_type }
    }
}

/// The body of the request that adds a card uid to a member in SSO.
#[derive(Debug, Clone, PartialEq, Eq)]
pub struct NfcOnboardBody {
    pub kthid: String,
    pub nfc_id: String,
}

/// The body that adds the card `card_uid` to the member `kth_id`.
pub fn onboard_body(card_uid: &str, kth_id: &str) -> (r: NfcOnboardBody)
    ensures
        r.kthid@ == kth_id@,
        r.nfc_id@ == card_uid@,
{
    NfcOnboardBody { kthid: String::from_str(kth_id), nfc_id: String::from_str(card_uid) }
}

/// The SSO endpoint that adds a card uid to a member.
pub fn onboard_url(sso_url: &str) -> (r: String)
    ensures
        r@ == sso_url@ + "/api/nfc"@,
{
    concat2(sso_url, "/api/nfc")
}

/// The SSO endpoint that looks up the member who owns a card.
pub fn member_info_url(sso_url: &str, card_uid: &str) -> (r: String)
    ensures
        r@ == sso_url@ + "/api/users?format=single&u="@ + card_uid@,
{
    concat3(sso_url, "/api/users?format=single&u=", card_uid)
}

/// The Hive permission that makes a user a VoteIT moderator.
pub const VOTEIT_MOD_PERM_ID: &'static str = "moderator";

/// The Hive endpoint that tells whether a user holds the moderator
/// permission. `hive_api_url` is the base of Hive's API, already ending in
/// its version (`https://hive.datasektionen.se/api/v1`).
pub fn moderator_url(hive_api_url: &str, kth_id: &str) -> (r: String)
    ensures
        r@ == hive_api_url@ + "/user/"@ + kth_id@ + "/permission/"@ + VOTEIT_MOD_PERM_ID@,
{
    concat3(hive_api_url, "/user/", kth_id).concat("/permission/").concat(VOTEIT_MOD_PERM_ID)
}

/// Hive answers the moderator question with the text `true`; any other
/// answer means no.
pub fn moderator_from_reply(reply: &str) -> (r: bool)
    ensures
        r == (reply@ == "true"@),
{
    str_eq(reply, "true")
}


/// Reading back the name of a membership type gives that type.
pub proof fn lemma_member_type_name_roundtrip(t: MemberTypes)
    ensures
        membership_of(member_type_name(t)) == t,
{
    reveal_strlit("honorary");
    reveal_strlit("junior");
    reveal_strlit("guest");
    reveal_strlit("alumni");
    reveal_strlit("ordinary");
    reveal_strlit("non-member");
    let h = "honorary"@;
    let j = "junior"@;
    let g = "guest"@;
    let a = "alumni"@;
    let o = "ordinary"@;
    let n = "non-member"@;
    assert(h.len() != j.len() && h.len() != g.len() && h.len() != a.len() && h.len() != n.len());
    assert(h[0] != o[0]);
    assert(j.len() != g.len() && j.len() != o.len() && j.len() != n.len() && j[0] != a[0]);
    assert(g.len() != a.len() && g.len() != o.len() && g.len() != n.len());
    assert(a.len() != o.len() && a.len() != n.len() && o.len() != n.len());
}

/// Every membership type but non-members may take part in a meeting, and
/// only ordinary members may vote.
pub proof fn lemma_membership_rights(t: MemberTypes)
    ensures
        has_flag(member_permission_bits(t), PARTICIPANT_BIT) <==> t != MemberTypes::NonMember,
        has_flag(member_permission_bits(t), VOTER_BIT) <==> t == MemberTypes::Ordinary,
        has_flag(member_permission_bits(t), DISCUSSER_BIT) <==> t != MemberTypes::NonMember,
        has_flag(member_permission_bits(t), PROPOSER_BIT) <==> (t == MemberTypes::Ordinary || t
            == MemberTypes::Alumni),
        !has_flag(member_permission_bits(t), MODERATOR_BIT),
{
    assert(15u8 & 1u8 == 1u8 && 15u8 & 2u8 == 2u8 && 15u8 & 4u8 == 4u8 && 15u8 & 8u8 == 8u8
        && 15u8 & 16u8 != 16u8) by (bit_vector);
    assert(7u8 & 1u8 == 1u8 && 7u8 & 2u8 == 2u8 && 7u8 & 4u8 == 4u8 && 7u8 & 8u8 != 8u8 && 7u8
        & 16u8 != 16u8) by (bit_vector);
    assert(3u8 & 1u8 == 1u8 && 3u8 & 2u8 == 2u8 && 3u8 & 4u8 != 4u8 && 3u8 & 8u8 != 8u8 && 3u8
        & 16u8 != 16u8) by (bit_vector);
    assert(0u8 & 1u8 != 1u8 && 0u8 & 2u8 != 2u8 && 0u8 & 4u8 != 4u8 && 0u8 & 8u8 != 8u8 && 0u8
        & 16u8 != 16u8) by (bit_vector);
}

} // verus!
