//! VoteIT integration: the permission flags that VoteIT knows and the
//! requests that Karon sends to it.

use vstd::prelude::*;
use crate::ids::{hyphenated_text, uuid_text};
use crate::server::Error;
use crate::text::concat2;

verus! {

/// Bit of the right to take part in a VoteIT meeting.
pub const PARTICIPANT_BIT: u8 = 1;
/// Bit of the right to speak.
pub const DISCUSSER_BIT: u8 = 2;
/// Bit of the right to make proposals.
pub const PROPOSER_BIT: u8 = 4;
/// Bit of the right to vote.
pub const VOTER_BIT: u8 = 8;
/// Bit of the moderator role.
pub const MODERATOR_BIT: u8 = 16;

/// The set of permissions a user holds in VoteIT, one bit per permission.
/// Bits outside the five named ones may be present; they name no role.
#[derive(Debug, PartialEq, Eq, Structural, Clone, Copy, Hash)]
pub struct Permissions {
    pub bits: u8,
}

/// Does the bit set `bits` hold every bit of `flag`?
pub open spec fn has_flag(bits: u8, flag: u8) -> bool {
    bits & flag == flag
}

/// The VoteIT role name of `flag` if `bits` holds it, else nothing.
pub open spec fn role_of(bits: u8, flag: u8, role: &'static str) -> Seq<&'static str> {
    if has_flag(bits, flag) {
        seq![role]
    } else {
        seq![]
    }
}

/// The VoteIT role names of the permissions in `bits`, in the order in
/// which the permissions are declared.
pub open spec fn role_names(bits: u8) -> Seq<&'static str> {
    role_of(bits, PARTICIPANT_BIT, "pa") + role_of(bits, DISCUSSER_BIT, "di") + role_of(
        bits,
        PROPOSER_BIT,
        "pr",
    ) + role_of(bits, VOTER_BIT, "pv") + role_of(bits, MODERATOR_BIT, "mo")
}

impl Permissions {
    /// Does `self` hold every permission of `other`?
    pub open spec fn spec_contains(self, other: Permissions) -> bool {
        has_flag(self.bits, other.bits)
    }

    /// The right to take part in a meeting.
    pub fn participant() -> (r: Self)
        ensures
            r.bits == PARTICIPANT_BIT,
    {
        Permissions { bits: PARTICIPANT_BIT }
    }

    /// The right to speak.
    pub fn discusser() -> (r: Self)
        ensures
            r.bits == DISCUSSER_BIT,
    {
        Permissions { bits: DISCUSSER_BIT }
    }

    /// The right to make proposals.
    pub fn proposer() -> (r: Self)
        ensures
            r.bits == PROPOSER_BIT,
    {
        Permissions { bits: PROPOSER_BIT }
    }

    /// The right to vote.
    pub fn voter() -> (r: Self)
        ensures
            r.bits == VOTER_BIT,
    {
        Permissions { bits: VOTER_BIT }
    }

    /// The moderator role.
    pub fn moderator() -> (r: Self)
        ensures
            r.bits == MODERATOR_BIT,
    {
        Permissions { bits: MODERATOR_BIT }
    }

    /// The permissions given by the bit set `bits`, unknown bits included.
    pub fn from_bits_retain(bits: u8) -> (r: Self)
        ensures
            r.bits == bits,
    {
        Permissions { bits }
    }

    /// The bit set of these permissions.
    pub fn bits(&self) -> (r: u8)
        ensures
            r == self.bits,
    {
        self.bits
    }

    /// Returns [`Permissions`] with no rights.
    pub fn no_permissions() -> (r: Self)
        ensures
            r.bits == 0,
    {
        Permissions { bits: 0 }
    }

    /// Does `self` hold every permission of `other`?
    pub fn contains(&self, other: Permissions) -> (r: bool)
        ensures
            r == self.spec_contains(other),
    {
        self.bits & other.bits == other.bits
    }

    /// The permissions held by `self` or by `other`.
    pub fn union(self, other: Permissions) -> (r: Self)
        ensures
            r.bits == self.bits | other.bits,
    {
        Permissions { bits: self.bits | other.bits }
    }

    /// The permissions held by both `self` and `other`.
    pub fn intersection(self, other: Permissions) -> (r: Self)
        ensures
            r.bits == self.bits & other.bits,
    {
        Permissions { bits: self.bits & other.bits }
    }

    /// Checks if a [`Permissions`] has voting rights.
    pub fn has_suffrage(&self) -> (r: bool)
        ensures
            r == has_flag(self.bits, VOTER_BIT),
    {
        self.bits & VOTER_BIT == VOTER_BIT
    }

    /// Translates the VoteIT permissions to their string representations which VoteIT uses:
    /// one role name per permission held, in the order in which the permissions are declared.
    pub fn to_voteit_strings(&self) -> (r: Vec<&'static str>)
        ensures
            r@ == role_names(self.bits),
            r@.contains("pa") <==> has_flag(self.bits, PARTICIPANT_BIT),
            r@.contains("di") <==> has_flag(self.bits, DISCUSSER_BIT),
            r@.contains("pr") <==> has_flag(self.bits, PROPOSER_BIT),
            r@.contains("pv") <==> has_flag(self.bits, VOTER_BIT),
            r@.contains("mo") <==> has_flag(self.bits, MODERATOR_BIT),
            r@.no_duplicates(),
    {
        let mut roles: Vec<&'static str> = Vec::new();
        if self.bits & PARTICIPANT_BIT == PARTICIPANT_BIT {
            roles.push("pa");
        }
        if self.bits & DISCUSSER_BIT == DISCUSSER_BIT {
            roles.push("di");
        }
        if self.bits & PROPOSER_BIT == PROPOSER_BIT {
            roles.push("pr");
        }
        if self.bits & VOTER_BIT == VOTER_BIT {
            roles.push("pv");
        }
        if self.bits & MODERATOR_BIT == MODERATOR_BIT {
            roles.push("mo");
        }
        assert(roles@ =~= role_names(self.bits));
        proof {
            lemma_roles_follow_bits(self.bits);
        }
        roles
    }
}

impl Default for Permissions {
    /// Returns [`Permissions`] with only the right to participate in a VoteIT meeting.
    fn default() -> (r: Self)
        ensures
            r.bits == PARTICIPANT_BIT,
    {
        Permissions { bits: PARTICIPANT_BIT }
    }
}


/// The token that authorises requests for one VoteIT meeting.
pub type VoteItToken = String;

/// Necessary information for a request to VoteIT.
#[derive(Debug, Clone, PartialEq, Eq)]
pub struct VoteItRequest {
    pub meeting_id: u128,
    pub voteit_token: VoteItToken,
    pub email: String,
    pub perms: Permissions,
}

impl VoteItRequest {
    /// `<email> at meeting <meeting id>`, the way a request is named in
    /// the service's log.
    pub fn describe(&self) -> (r: String)
        ensures
            r@ == self.email@ + " at meeting "@ + hyphenated_text(self.meeting_id),
    {
        let id = uuid_text(self.meeting_id);
        concat2(self.email.as_str(), " at meeting ").concat(id.as_str())
    }
}

/// May `c` stand in an HTTP header value? Tabs and all characters from
/// the space on may, except DEL.
pub open spec fn header_char_ok(c: char) -> bool {
    c == '\t' || (c as u32 >= 32 && c as u32 != 127)
}

/// May `s` be sent as an HTTP header value?
pub open spec fn valid_header_text(s: Seq<char>) -> bool {
    forall|i: int| 0 <= i < s.len() ==> header_char_ok(#[trigger] s[i])
}

/// Whether `reqwest::header::HeaderValue::from_str` accepts `text`: it
/// refuses a text that holds a byte below 32 other than a tab, or the byte
/// 127; the bytes of characters beyond ASCII are all accepted.
#[verifier::external_body]
fn header_value_accepts(text: &str) -> (r: bool)
    ensures
        r == valid_header_text(text@),
{
    reqwest::header::HeaderValue::from_str(text).is_ok()
}

/// The `Authorization` header value of a VoteIT request,
/// `Api-Key <token>`; a request whose token cannot stand in a header is
/// refused with the meeting id.
pub fn api_key_header(req: &VoteItRequest) -> (r: Result<String, Error>)
    ensures
        valid_header_text("Api-Key "@ + req.voteit_token@) ==> (r matches Ok(v) && v@
            == "Api-Key "@ + req.voteit_token@),
        !valid_header_text("Api-Key "@ + req.voteit_token@) ==> (r matches Err(
            Error::ReqestParseError(id),
        ) && id@ == hyphenated_text(req.meeting_id)),
{
    let value = concat2("Api-Key ", req.voteit_token.as_str());
    if header_value_accepts(value.as_str()) {
        Ok(value)
    } else {
        Err(Error::ReqestParseError(uuid_text(req.meeting_id)))
    }
}

/// The VoteIT endpoint that sends meeting invites.
pub fn invites_url(voteit_url: &str) -> (r: String)
    ensures
        r@ == voteit_url@ + "/token-api/invites/"@,
{
    concat2(voteit_url, "/token-api/invites/")
}

/// One invited person in a VoteIT invite.
#[derive(Debug, Clone, PartialEq, Eq)]
pub struct Invitee {
    pub email: String,
}

/// The request body for sending to VoteIT: the roles to grant and the
/// person to grant them to.
#[derive(Debug, Clone, PartialEq, Eq)]
pub struct InviteBody {
    pub roles: Vec<&'static str>,
    pub data: Vec<Invitee>,
}

/// Builds the request body for sending to VoteIT: the role names of
/// `permissions` and one invitee with the e-mail address `email`.
pub fn body_builder(email: &str, permissions: Permissions) -> (r: InviteBody)
    ensures
        r.roles@ == role_names(permissions.bits),
        r.data@.len() == 1,
        r.data@[0].email@ == email@,
{
    let roles = permissions.to_voteit_strings();
    let mut data: Vec<Invitee> = Vec::new();
    data.push(Invitee { email: String::from_str(email) });
    InviteBody { roles, data }
}


/// The five role names are pairwise distinct.
proof fn lemma_role_names_distinct()
    ensures
        "pa" != "di" && "pa" != "pr" && "pa" != "pv" && "pa" != "mo",
        "di" != "pr" && "di" != "pv" && "di" != "mo",
        "pr" != "pv" && "pr" != "mo",
        "pv" != "mo",
{
    reveal_strlit("pa");
    reveal_strlit("di");
    reveal_strlit("pr");
    reveal_strlit("pv");
    reveal_strlit("mo");
    assert("pa"@[1] != "di"@[1] && "pa"@[0] != "pr"@[1]);
    assert("pa"@ != "pr"@ && "pa"@ != "pv"@ && "pa"@ != "mo"@);
    assert("pa"@ != "di"@);
    assert("di"@ != "pr"@ && "di"@ != "pv"@ && "di"@ != "mo"@);
    assert("pr"@[1] != "pv"@[1] && "pr"@[0] != "mo"@[0] && "pv"@[0] != "mo"@[0]);
    assert("pr"@ != "pv"@ && "pr"@ != "mo"@ && "pv"@ != "mo"@);
}

/// Role law: for every bit set, each VoteIT role name is in the role list
/// exactly when the bit of its permission is set, whatever the other bits
/// are, and no role name occurs twice.
pub proof fn lemma_roles_follow_bits(bits: u8)
    ensures
        role_names(bits).contains("pa") <==> has_flag(bits, PARTICIPANT_BIT),
        role_names(bits).contains("di") <==> has_flag(bits, DISCUSSER_BIT),
        role_names(bits).contains("pr") <==> has_flag(bits, PROPOSER_BIT),
        role_names(bits).contains("pv") <==> has_flag(bits, VOTER_BIT),
        role_names(bits).contains("mo") <==> has_flag(bits, MODERATOR_BIT),
        role_names(bits).no_duplicates(),
        role_names(bits).len() <= 5,
{
    lemma_role_names_distinct();
    let s = role_names(bits);
    let a = role_of(bits, PARTICIPANT_BIT, "pa");
    let b = role_of(bits, DISCUSSER_BIT, "di");
    let c = role_of(bits, PROPOSER_BIT, "pr");
    let d = role_of(bits, VOTER_BIT, "pv");
    let e = role_of(bits, MODERATOR_BIT, "mo");
    assert(s =~= a + b + c + d + e);
    let names: Seq<&'static str> = seq!["pa", "di", "pr", "pv", "mo"];
    let flags: Seq<u8> = seq![PARTICIPANT_BIT, DISCUSSER_BIT, PROPOSER_BIT, VOTER_BIT, MODERATOR_BIT];
    // Every element of `s` is one of the five names, and each name comes from its own part.
    assert forall|i: int| 0 <= i < s.len() implies exists|k: int|
        0 <= k < 5 && #[trigger] s[i] == names[k] && has_flag(bits, flags[k]) && (forall|j: int|
            0 <= j < s.len() && s[j] == names[k] ==> j == i) by {
        let la = a.len() as int;
        let lb = b.len() as int;
        let lc = c.len() as int;
        let ld = d.len() as int;
        if i < la {
            assert(s[i] == names[0]);
        } else if i < la + lb {
            assert(s[i] == names[1]);
        } else if i < la + lb + lc {
            assert(s[i] == names[2]);
        } else if i < la + lb + lc + ld {
            assert(s[i] == names[3]);
        } else {
            assert(s[i] == names[4]);
        }
    }
    if has_flag(bits, PARTICIPANT_BIT) {
        assert(s[0] == "pa");
    }
    if has_flag(bits, DISCUSSER_BIT) {
        assert(s[a.len() as int] == "di");
    }
    if has_flag(bits, PROPOSER_BIT) {
        assert(s[(a.len() + b.len()) as int] == "pr");
    }
    if has_flag(bits, VOTER_BIT) {
        assert(s[(a.len() + b.len() + c.len()) as int] == "pv");
    }
    if has_flag(bits, MODERATOR_BIT) {
        assert(s[(a.len() + b.len() + c.len() + d.len()) as int] == "mo");
    }
}

} // verus!
