//! The commands of the bot: what each one decides, changes in the registry, and says.
use vstd::prelude::*;
use vstd::string::StrSliceExecFns;

use crate::outside::{
    channel_id_from_str, channel_id_of, starts_with, user_id_from_str, user_id_of,
    user_id_parse_panics,
};

pub mod admin_commands;
pub mod config_commands;
pub mod user_commands;

verus! {

/// What the commands read of a Discord user: its id, its name and its tag (`name#0000`).
pub struct UserInfo {
    pub id: u64,
    pub name: String,
    pub tag: String,
}

#[verifier::ext_equal]
pub struct UserInfoView {
    pub id: u64,
    pub name: Seq<char>,
    pub tag: Seq<char>,
}

impl View for UserInfo {
    type V = UserInfoView;

    open spec fn view(&self) -> UserInfoView {
        UserInfoView { id: self.id, name: self.name@, tag: self.tag@ }
    }
}

/// Whether reading a user from `token` panics in serenity (a mention that ends in a
/// character that is not ASCII).
pub fn user_token_panics(token: &str) -> (r: bool)
    ensures
        r == user_id_parse_panics(token@),
{
    let n = token.unicode_len();
    if n < 3 {
        return false;
    }
    let c0 = token.get_char(0);
    let c1 = token.get_char(1);
    let last = token.get_char(n - 1);
    let r = c0 == '<' && c1 == '@' && (last as u32) > 0x7f;
    proof {
        let s = token@;
        if c0 == '<' && c1 == '@' {
            assert(s.subrange(0, 2) =~= seq!['<', '@']);
        }
        if starts_with(s, seq!['<', '@']) {
            assert(s.subrange(0, 2)[0] == s[0]);
            assert(s.subrange(0, 2)[1] == s[1]);
        }
    }
    r
}

/// The user that a command argument names, as `Args::single::<UserId>` reads it:
/// `None` when there is no argument or it names no user.
pub fn parse_user_arg(token: Option<&str>) -> (r: Option<u64>)
    requires
        token matches Some(t) ==> !user_id_parse_panics(t@),
    ensures
        match token {
            Some(t) => match user_id_of(t@) {
                Some(n) => r == Some(n as u64),
                None => r is None,
            },
            None => r is None,
        },
{
    match token {
        Some(t) => user_id_from_str(t),
        None => None,
    }
}

/// The channel that a command argument names, as `Args::single::<ChannelId>` reads it.
pub fn parse_channel_arg(token: Option<&str>) -> (r: Option<u64>)
    ensures
        match token {
            Some(t) => match channel_id_of(t@) {
                Some(n) => r == Some(n as u64),
                None => r is None,
            },
            None => r is None,
        },
{
    match token {
        Some(t) => channel_id_from_str(t),
        None => None,
    }
}

/// The user that an optional argument names, by serenity's reading of user mentions.
pub open spec fn token_user(token: Option<&str>) -> Option<nat> {
    match token {
        Some(t) => user_id_of(t@),
        None => None,
    }
}

/// The user that a command's argument names: `Err("Please enter a valid user")` when
/// there is no argument or it names no user.
pub fn user_argument(token: Option<&str>) -> (r: Result<u64, String>)
    requires
        token matches Some(t) ==> !user_id_parse_panics(t@),
    ensures
        match token_user(token) {
            Some(n) => r == Ok::<u64, String>(n as u64),
            None => r matches Err(e) && e@ == "Please enter a valid user"@,
        },
{
    match parse_user_arg(token) {
        Some(id) => Ok(id),
        None => Err(String::from_str("Please enter a valid user")),
    }
}

} // verus!
