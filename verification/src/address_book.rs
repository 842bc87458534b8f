//! The address book and the groups of an account, as they are kept on this device.

use vstd::prelude::*;
use crate::text::{join, same_text};

verus! {

/// How many bytes of compressed data are stored at most.
pub const MAX_STORED_LEN: usize = 67_108_864;

/// A host in an address book.
#[derive(Debug)]
pub struct AbPeer {
    pub id: String,
    pub hash: String,
    pub username: String,
    pub hostname: String,
    pub platform: String,
    pub alias: String,
    pub tags: Vec<String>,
}

impl Default for AbPeer {
    fn default() -> (r: Self)
        ensures
            r.id@.len() == 0,
            r.hash@.len() == 0,
            r.username@.len() == 0,
            r.hostname@.len() == 0,
            r.platform@.len() == 0,
            r.alias@.len() == 0,
            r.tags@.len() == 0,
    {
        AbPeer {
            id: String::new(),
            hash: String::new(),
            username: String::new(),
            hostname: String::new(),
            platform: String::new(),
            alias: String::new(),
            tags: Vec::new(),
        }
    }
}

/// An address book.
#[derive(Debug)]
pub struct AbEntry {
    pub guid: String,
    pub name: String,
    pub peers: Vec<AbPeer>,
    pub tags: Vec<String>,
    pub tag_colors: String,
}

impl Default for AbEntry {
    fn default() -> (r: Self)
        ensures
            r.guid@.len() == 0,
            r.name@.len() == 0,
            r.peers@.len() == 0,
            r.tags@.len() == 0,
            r.tag_colors@.len() == 0,
    {
        AbEntry {
            guid: String::new(),
            name: String::new(),
            peers: Vec::new(),
            tags: Vec::new(),
            tag_colors: String::new(),
        }
    }
}

impl AbEntry {
    /// Whether it is the address book of the user, and not one that is shared.
    pub fn personal(&self) -> (r: bool)
        ensures
            r == (self.name@ == "My address book"@ || self.name@ == "Legacy address book"@),
    {
        same_text(self.name.as_str(), "My address book") || same_text(
            self.name.as_str(),
            "Legacy address book",
        )
    }
}

/// The address books of an account.
#[derive(Debug)]
pub struct Ab {
    pub access_token: String,
    pub ab_entries: Vec<AbEntry>,
}

impl Default for Ab {
    fn default() -> (r: Self)
        ensures
            r.access_token@.len() == 0,
            r.ab_entries@.len() == 0,
    {
        Ab {
            access_token: String::new(),
            ab_entries: Vec::new(),
        }
    }
}

/// A host of a group.
#[derive(Debug)]
pub struct GroupPeer {
    pub id: String,
    pub username: String,
    pub hostname: String,
    pub platform: String,
    pub login_name: String,
}

impl Default for GroupPeer {
    fn default() -> (r: Self)
        ensures
            r.id@.len() == 0,
            r.username@.len() == 0,
            r.hostname@.len() == 0,
            r.platform@.len() == 0,
            r.login_name@.len() == 0,
    {
        GroupPeer {
            id: String::new(),
            username: String::new(),
            hostname: String::new(),
            platform: String::new(),
            login_name: String::new(),
        }
    }
}

/// A user of a group.
#[derive(Debug)]
pub struct GroupUser {
    pub name: String,
    pub display_name: String,
}

impl Default for GroupUser {
    fn default() -> (r: Self)
        ensures
            r.name@.len() == 0,
            r.display_name@.len() == 0,
    {
        GroupUser {
            name: String::new(),
            display_name: String::new(),
        }
    }
}

/// A group of hosts.
#[derive(Debug)]
pub struct DeviceGroup {
    pub name: String,
}

impl Default for DeviceGroup {
    fn default() -> (r: Self)
        ensures
            r.name@.len() == 0,
    {
        DeviceGroup {
            name: String::new(),
        }
    }
}

/// The groups of an account.
#[derive(Debug)]
pub struct Group {
    pub access_token: String,
    pub users: Vec<GroupUser>,
    pub peers: Vec<GroupPeer>,
    pub device_groups: Vec<DeviceGroup>,
}

impl Default for Group {
    fn default() -> (r: Self)
        ensures
            r.access_token@.len() == 0,
            r.users@.len() == 0,
            r.peers@.len() == 0,
            r.device_groups@.len() == 0,
    {
        Group {
            access_token: String::new(),
            users: Vec::new(),
            peers: Vec::new(),
            device_groups: Vec::new(),
        }
    }
}

/// Whether compressed data is small enough to be stored, so that it can be unpacked again.
pub fn can_be_stored(data: &[u8]) -> (r: bool)
    ensures
        r == (data@.len() <= MAX_STORED_LEN),
        r <==> data@.len() <= 64 * 1024 * 1024,
{
    data.len() <= MAX_STORED_LEN
}

impl Ab {
    /// The name of the file of the address books, below the directory of configuration files.
    pub fn path(app_name: &str) -> (r: String)
        ensures
            r@ == app_name@ + "_ab"@,
    {
        join(app_name, "_ab")
    }
}

impl Group {
    /// The name of the file of the groups, below the directory of configuration files.
    pub fn path(app_name: &str) -> (r: String)
        ensures
            r@ == app_name@ + "_group"@,
    {
        join(app_name, "_group")
    }
}

} // verus!
