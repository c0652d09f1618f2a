//! RAID-set health checking.
//!
//! A RAID listing arrives as plain records: an optional list of RAID sets,
//! each with identifiers, an overall status and its member devices. The
//! logic here normalizes that listing into one status record per set and
//! decides health: a set is healthy exactly when its own status is
//! `"Online"` and every member reports `"Online"`; otherwise the check
//! reports the comma-joined identifiers of the members that are not online.

use vstd::prelude::*;
use vstd::string::StringExecFns;
use crate::strutil::join_comma;
use crate::strutil::spec_join_comma;
use crate::strutil::spec_views;

verus! {

/// One member device of a RAID set: its BSD device name and its reported
/// member status.
#[derive(Clone, Debug, PartialEq, Eq)]
pub struct RaidMember {
    pub bsdname: String,
    pub status: String,
}

/// One RAID set as parsed from the disk utility's listing.
#[derive(Clone, Debug, PartialEq, Eq)]
pub struct RaidSet {
    pub uuid: Option<String>,
    pub bsdname: Option<String>,
    pub name: Option<String>,
    pub status: Option<String>,
    pub members: Vec<RaidMember>,
}

/// The disk utility's listing: the RAID sets, absent when the machine has
/// none.
#[derive(Clone, Debug, PartialEq, Eq)]
pub struct DiskutilOutput {
    pub raidsets: Option<Vec<RaidSet>>,
}

/// The normalized status of one RAID set.
#[derive(Clone, Debug, PartialEq, Eq)]
pub struct RaidStatus {
    pub uuid: String,
    pub name: String,
    pub status: String,
    pub devices: Vec<RaidMember>,
}

/// The RAID sets a listing holds, none when the list is absent.
pub open spec fn spec_sets_of(output: DiskutilOutput) -> Seq<RaidSet> {
    if output.raidsets is Some {
        output.raidsets->0@
    } else {
        Seq::<RaidSet>::empty()
    }
}

/// The overall status a set is normalized to: its own status where present,
/// `"Online"` otherwise.
pub open spec fn spec_status_of(set: RaidSet) -> Seq<char> {
    if set.status is Some {
        set.status->0@
    } else {
        "Online"@
    }
}

/// The BSD names of the members that do not report `"Online"`, in order.
pub open spec fn spec_faulty_names(devices: Seq<RaidMember>) -> Seq<Seq<char>>
    decreases devices.len(),
{
    if devices.len() == 0 {
        Seq::<Seq<char>>::empty()
    } else {
        let rest = spec_faulty_names(devices.drop_last());
        if devices.last().status@ == "Online"@ {
            rest
        } else {
            rest.push(devices.last().bsdname@)
        }
    }
}

/// A RAID set is healthy exactly when its own status is `"Online"` and no
/// member is faulty.
pub open spec fn spec_raid_healthy(rs: RaidStatus) -> bool {
    rs.status@ == "Online"@ && spec_faulty_names(rs.devices@).len() == 0
}

/// Decide the health of one RAID set: `Ok(true)` exactly when the set's
/// status is `"Online"` and every member reports `"Online"`; otherwise the
/// comma-joined BSD names of the members that are not online.
pub fn check_raid_health(raid_set_status: RaidStatus) -> (r: Result<bool, String>)
    ensures
        r is Ok <==> spec_raid_healthy(raid_set_status),
        r is Ok ==> r->Ok_0 == true,
        r is Err ==> r->Err_0@ == spec_join_comma(spec_faulty_names(raid_set_status.devices@)),
{
    let online = String::from_str("Online");
    let mut faulty: Vec<String> = Vec::new();
    let mut i: usize = 0;
    while i < raid_set_status.devices.len()
        invariant
            online@ == "Online"@,
            i <= raid_set_status.devices@.len(),
            spec_views(faulty@) =~= spec_faulty_names(raid_set_status.devices@.take(i as int)),
        decreases raid_set_status.devices@.len() - i,
    {
        let member = &raid_set_status.devices[i];
        if !(member.status == online) {
            faulty.push(member.bsdname.clone());
        }
        proof {
            assert(raid_set_status.devices@.take(i + 1).drop_last() =~= raid_set_status.devices@
                .take(i as int));
            assert(raid_set_status.devices@.take(i + 1).last() == raid_set_status.devices@[
                i as int]);
        }
        i = i + 1;
    }
    proof {
        assert(raid_set_status.devices@.take(raid_set_status.devices@.len() as int)
            =~= raid_set_status.devices@);
    }
    if raid_set_status.status == online && faulty.len() == 0 {
        Ok(true)
    } else {
        Err(join_comma(&faulty))
    }
}

/// Normalize a disk utility listing into one status record per RAID set:
/// the set's identifier and name carried over, its status taken from the
/// listing (defaulting to `"Online"` where the listing gives none), and its
/// member devices kept in order.
pub fn get_raid_status(disk_util_output: DiskutilOutput) -> (r: Vec<RaidStatus>)
    requires
        forall|i: int|
            0 <= i < spec_sets_of(disk_util_output).len() ==> (#[trigger] spec_sets_of(
                disk_util_output,
            )[i]).uuid is Some && spec_sets_of(disk_util_output)[i].name is Some,
    ensures
        r@.len() == spec_sets_of(disk_util_output).len(),
        forall|i: int|
            0 <= i < r@.len() ==> {
                &&& (#[trigger] r@[i]).uuid == spec_sets_of(disk_util_output)[i].uuid->0
                &&& r@[i].name == spec_sets_of(disk_util_output)[i].name->0
                &&& r@[i].status@ == spec_status_of(spec_sets_of(disk_util_output)[i])
                &&& r@[i].devices == spec_sets_of(disk_util_output)[i].members
            },
{
    let mut raid_status: Vec<RaidStatus> = Vec::new();
    let mut sets: Vec<RaidSet> = match disk_util_output.raidsets {
        Some(v) => v,
        None => Vec::new(),
    };
    let ghost all: Seq<RaidSet> = spec_sets_of(disk_util_output);
    proof {
        assert(sets@ =~= all.subrange(0, all.len() as int));
    }
    let initial_len = sets.len();
    proof {
        assert(all.len() == initial_len);
    }
    let mut k: usize = 0;
    while sets.len() > 0
        invariant
            all.len() <= usize::MAX,
            k + sets@.len() == all.len(),
            sets@ =~= all.subrange(k as int, all.len() as int),
            raid_status@.len() == k,
            forall|i: int|
                0 <= i < all.len() ==> (#[trigger] all[i]).uuid is Some && all[i].name is Some,
            forall|i: int|
                0 <= i < k ==> {
                    &&& (#[trigger] raid_status@[i]).uuid == all[i].uuid->0
                    &&& raid_status@[i].name == all[i].name->0
                    &&& raid_status@[i].status@ == spec_status_of(all[i])
                    &&& raid_status@[i].devices == all[i].members
                },
        decreases sets@.len(),
    {
        let set = sets.remove(0);
        proof {
            assert(set == all[k as int]);
        }
        let RaidSet { uuid, bsdname: _, name, status, members } = set;
        let status = match status {
            Some(s) => s,
            None => String::from_str("Online"),
        };
        raid_status.push(
            RaidStatus { uuid: uuid.unwrap(), name: name.unwrap(), status, devices: members },
        );
        k = k + 1;
    }
    raid_status
}

} // verus!
