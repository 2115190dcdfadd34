//! The rank a user holds and the style of their avatar, with the exact
//! string forms the HTTP surface and the database rows use for them.

use vstd::prelude::*;

verus! {

/// A user's rank, ordered from most to least privileged.
#[derive(Debug, Clone, Copy, PartialEq, Eq, Structural)]
pub enum UserRank {
    Administrator,
    Moderator,
    Power,
    Regular,
    Restricted,
    Anonymous,
    Nobody,
}

/// The string form of a rank.
pub open spec fn rank_name(r: UserRank) -> Seq<char> {
    match r {
        UserRank::Administrator => "administrator"@,
        UserRank::Moderator => "moderator"@,
        UserRank::Power => "power"@,
        UserRank::Regular => "regular"@,
        UserRank::Restricted => "restricted"@,
        UserRank::Anonymous => "anonymous"@,
        UserRank::Nobody => "nobody"@,
    }
}

impl UserRank {
    /// The rank a string form names, or an error for any other string.
    pub fn from_str(s: &str) -> (r: Result<Self, ()>)
        ensures
            match r {
                Result::Ok(v) => rank_name(v) == s@,
                Result::Err(_) => s@ != "administrator"@ && s@ != "moderator"@ && s@ != "power"@
                    && s@ != "regular"@ && s@ != "restricted"@ && s@ != "anonymous"@ && s@
                    != "nobody"@,
            },
    {
        let t = s.to_owned();
        if t == "administrator".to_owned() {
            Result::Ok(UserRank::Administrator)
        } else if t == "moderator".to_owned() {
            Result::Ok(UserRank::Moderator)
        } else if t == "power".to_owned() {
            Result::Ok(UserRank::Power)
        } else if t == "regular".to_owned() {
            Result::Ok(UserRank::Regular)
        } else if t == "restricted".to_owned() {
            Result::Ok(UserRank::Restricted)
        } else if t == "anonymous".to_owned() {
            Result::Ok(UserRank::Anonymous)
        } else if t == "nobody".to_owned() {
            Result::Ok(UserRank::Nobody)
        } else {
            Result::Err(())
        }
    }

    /// The string form of this rank.
    pub fn to_string(&self) -> (r: String)
        ensures
            r@ == rank_name(*self),
    {
        match self {
            UserRank::Administrator => "administrator".to_owned(),
            UserRank::Moderator => "moderator".to_owned(),
            UserRank::Power => "power".to_owned(),
            UserRank::Regular => "regular".to_owned(),
            UserRank::Restricted => "restricted".to_owned(),
            UserRank::Anonymous => "anonymous".to_owned(),
            UserRank::Nobody => "nobody".to_owned(),
        }
    }
}

/// How a user's avatar is produced.
#[derive(Debug, Clone, Copy, PartialEq, Eq, Structural)]
pub enum AvatarStyle {
    Gravatar,
    Manual,
}

/// The string form of an avatar style.
pub open spec fn avatar_style_name(a: AvatarStyle) -> Seq<char> {
    match a {
        AvatarStyle::Gravatar => "gravatar"@,
        AvatarStyle::Manual => "manual"@,
    }
}

impl AvatarStyle {
    /// The style a string form names, or an error for any other string.
    pub fn from_str(s: &str) -> (r: Result<Self, ()>)
        ensures
            match r {
                Result::Ok(v) => avatar_style_name(v) == s@,
                Result::Err(_) => s@ != "gravatar"@ && s@ != "manual"@,
            },
    {
        let t = s.to_owned();
        if t == "gravatar".to_owned() {
            Result::Ok(AvatarStyle::Gravatar)
        } else if t == "manual".to_owned() {
            Result::Ok(AvatarStyle::Manual)
        } else {
            Result::Err(())
        }
    }

    /// The string form of this style.
    pub fn to_string(&self) -> (r: String)
        ensures
            r@ == avatar_style_name(*self),
    {
        match self {
            AvatarStyle::Gravatar => "gravatar".to_owned(),
            AvatarStyle::Manual => "manual".to_owned(),
        }
    }
}

} // verus!
