//! Users, groups and the activity log.
use vstd::prelude::*;
use vstd::string::StringExecFns;

use crate::text::{decimal, decimal_text};

verus! {

/// A user of the instance.
#[derive(Clone, Debug)]
pub struct User {
    pub id: Option<u32>,
    pub title: Option<String>,
    pub email: Option<String>,
    pub alternate_email: Option<String>,
    pub role: Option<String>,
    pub phone: Option<String>,
    pub name: Option<String>,
    pub location: Option<String>,
    pub timezone: Option<String>,
    pub employee_id: Option<String>,
    pub role_id: Option<usize>,
    pub employee_number: Option<usize>,
    pub created_at: Option<String>,
    pub updated_at: Option<String>,
    pub deleted: Option<bool>,
    pub image_uri: Option<String>,
    pub groups: Option<Vec<Group>>,
    pub locale: Option<String>,
}

/// The roles a user can have.
#[derive(Clone, Copy, Debug, PartialEq, Eq, Structural)]
pub enum Role {
    Participant,
    Privileged,
    Admin,
}

/// The owner of a dataset.
#[derive(Clone, Debug)]
pub struct Owner {
    pub id: u32,
    pub name: String,
}

/// A group and its members.
#[derive(Clone, Debug)]
pub struct GroupInfo {
    pub id: u64,
    pub name: String,
    pub default: bool,
    pub active: bool,
    pub creator_id: u64,
    pub member_count: i32,
    pub user_ids: Vec<i32>,
}

/// A group as a user record lists it.
#[derive(Clone, Debug)]
pub struct Group {
    pub id: u64,
    pub name: Option<String>,
}

/// One entry of the activity log.
#[derive(Clone, Debug)]
pub struct ActivityLogEntry {
    pub user_name: String,
    pub user_id: String,
    pub user_type: String,
    pub actor_id: u64,
    pub actor_type: String,
    pub object_name: String,
    pub object_id: String,
    pub object_type: String,
    pub additional_comment: String,
    pub time: String,
    pub event_text: String,
    pub device: String,
    pub browser_details: String,
    pub ip_address: String,
}

/// One entry of the activity log, as the older listing endpoint returns it.
#[derive(Clone, Debug)]
pub struct ActivityLog {
    pub user_name: String,
    pub user_id: String,
    pub user_type: String,
    pub actor_id: u64,
    pub actor_type: String,
    pub object_name: String,
    pub object_id: String,
    pub object_type: String,
    pub additional_comment: String,
    pub time: String,
    pub event_text: String,
    pub device: String,
    pub browser_details: String,
    pub ip_address: String,
}

/// A search of the activity log. Times are in milliseconds.
#[derive(Clone, Debug)]
pub struct ActivityLogSearchQuery {
    pub user_id: Option<u64>,
    pub start: u64,
    pub end: Option<u64>,
    /// At most this many entries; the server's default is 50.
    pub limit: Option<u32>,
    /// Skip this many entries; the server's default is 0.
    pub offset: Option<u32>,
}

/// `prefix` and the value in decimal for a parameter that is set, else
/// nothing.
pub open spec fn optional_param(prefix: Seq<char>, value: Option<nat>) -> Seq<char> {
    match value {
        Some(v) => prefix + decimal_text(v),
        None => Seq::empty(),
    }
}

pub open spec fn as_nat_u64(v: Option<u64>) -> Option<nat> {
    match v {
        Some(x) => Some(x as nat),
        None => None,
    }
}

pub open spec fn as_nat_u32(v: Option<u32>) -> Option<nat> {
    match v {
        Some(x) => Some(x as nat),
        None => None,
    }
}

impl ActivityLogSearchQuery {
    /// The query string of the search: `start`, then `end`, `limit`,
    /// `offset` and `user` for those that are set. The optional parameters
    /// are used up.
    pub fn create_query_string(&mut self) -> (r: String)
        ensures
            r@ == "start="@ + decimal_text(old(self).start as nat) + optional_param(
                "&end="@,
                as_nat_u64(old(self).end),
            ) + optional_param("&limit="@, as_nat_u32(old(self).limit)) + optional_param(
                "&offset="@,
                as_nat_u32(old(self).offset),
            ) + optional_param("&user="@, as_nat_u64(old(self).user_id)),
            *final(self) == (ActivityLogSearchQuery {
                start: old(self).start,
                end: None,
                limit: None,
                offset: None,
                user_id: None,
            }),
    {
        let mut s = String::from_str("start=");
        let start = decimal(self.start);
        s.append(start.as_str());
        let ghost base = s@;
        if let Some(end) = self.end {
            let v = decimal(end);
            s.append("&end=");
            s.append(v.as_str());
        }
        proof {
            assert(s@ =~= base + optional_param("&end="@, as_nat_u64(old(self).end)));
        }
        let ghost base = s@;
        if let Some(limit) = self.limit {
            let v = decimal(limit as u64);
            s.append("&limit=");
            s.append(v.as_str());
        }
        proof {
            assert(s@ =~= base + optional_param("&limit="@, as_nat_u32(old(self).limit)));
        }
        let ghost base = s@;
        if let Some(offset) = self.offset {
            let v = decimal(offset as u64);
            s.append("&offset=");
            s.append(v.as_str());
        }
        proof {
            assert(s@ =~= base + optional_param("&offset="@, as_nat_u32(old(self).offset)));
        }
        let ghost base = s@;
        if let Some(user) = self.user_id {
            let v = decimal(user);
            s.append("&user=");
            s.append(v.as_str());
        }
        proof {
            assert(s@ =~= base + optional_param("&user="@, as_nat_u64(old(self).user_id)));
        }
        self.end = None;
        self.limit = None;
        self.offset = None;
        self.user_id = None;
        s
    }
}

} // verus!
