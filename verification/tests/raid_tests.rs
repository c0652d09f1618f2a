use mqttbot::DiskutilOutput;
use mqttbot::RaidMember;
use mqttbot::RaidSet;
use mqttbot::RaidStatus;
use mqttbot::check_raid_health;
use mqttbot::get_raid_status;

const CONTENT: &str = r#"<?xml version="1.0" encoding="UTF-8"?>
    <!DOCTYPE plist PUBLIC "-//Apple//DTD PLIST 1.0//EN" "http://www.apple.com/DTDs/PropertyList-1.0.dtd">
    <plist version="1.0">
    <dict>
        <key>AppleRAIDSets</key>
        <array>
            <dict>
                <key>AppleRAIDSetUUID</key>
                <string>29A25F24-BEA2-47BA-B0F9-323CDF5545EC</string>
                <key>BSD Name</key>
                <string>disk4</string>
                <key>ChunkCount</key>
                <integer>122083833</integer>
                <key>ChunkSize</key>
                <integer>32768</integer>
                <key>Content</key>
                <string>7C3457EF-0000-11AA-AA11-00306543ECAC</string>
                <key>Level</key>
                <string>Mirror</string>
                <key>Members</key>
                <array>
                    <dict>
                        <key>AppleRAIDMemberUUID</key>
                        <string>6604E412-FC8E-4BD6-A2B1-972D47793A82</string>
                        <key>BSD Name</key>
                        <string>disk3s2</string>
                        <key>MemberStatus</key>
                        <string>Online</string>
                    </dict>
                    <dict>
                        <key>AppleRAIDMemberUUID</key>
                        <string>E4036DC8-CC28-47BD-B448-3A923098EEF1</string>
                        <key>BSD Name</key>
                        <string>disk2s2</string>
                        <key>MemberStatus</key>
                        <string>Online</string>
                    </dict>
                </array>
                <key>Name</key>
                <string>DataRaid</string>
                <key>Rebuild</key>
                <string>Automatic</string>
                <key>Size</key>
                <integer>4000443039744</integer>
                <key>Spares</key>
                <array/>
                <key>Status</key>
                <string>Online</string>
            </dict>
        </array>
    </dict>
    </plist>"#;

/// Read the disk utility's plist into the library's listing records.
fn parse_diskutil(content: &[u8]) -> DiskutilOutput {
    let value: plist::Value = plist::from_bytes(content).unwrap();
    let dict = value.as_dictionary().unwrap();
    let raidsets = dict.get("AppleRAIDSets").map(|sets| {
        sets.as_array()
            .unwrap()
            .iter()
            .map(|set| {
                let set = set.as_dictionary().unwrap();
                let text = |key: &str| set.get(key).and_then(|v| v.as_string()).map(|s| s.to_string());
                let members = set
                    .get("Members")
                    .and_then(|m| m.as_array().cloned())
                    .unwrap_or_default()
                    .iter()
                    .map(|member| {
                        let member = member.as_dictionary().unwrap();
                        RaidMember {
                            bsdname: member
                                .get("BSD Name")
                                .and_then(|v| v.as_string())
                                .unwrap_or("")
                                .to_string(),
                            status: member
                                .get("MemberStatus")
                                .and_then(|v| v.as_string())
                                .unwrap_or("")
                                .to_string(),
                        }
                    })
                    .collect();
                RaidSet {
                    uuid: text("AppleRAIDSetUUID"),
                    bsdname: text("BSD Name"),
                    name: text("Name"),
                    status: text("Status"),
                    members,
                }
            })
            .collect()
    });
    DiskutilOutput { raidsets }
}

#[test]
fn parse_file() {
    let data: DiskutilOutput = parse_diskutil(CONTENT.as_bytes());
    let raidsets = data.raidsets.unwrap();
    assert_eq!(raidsets.len(), 1);
    assert_eq!(raidsets[0].bsdname.as_ref().unwrap(), "disk4");
    assert_eq!(raidsets[0].name.as_ref().unwrap(), "DataRaid");
    assert_eq!(raidsets[0].members.len(), 2);
}

#[test]
fn test_get_raid_status() {
    let output: DiskutilOutput = parse_diskutil(CONTENT.as_bytes());
    let raid_status = get_raid_status(output);

    let first_status = raid_status.first().unwrap();
    assert_eq!(raid_status.len(), 1);
    assert_eq!(first_status.uuid, "29A25F24-BEA2-47BA-B0F9-323CDF5545EC");
}

#[test]
fn test_check_raid_health() {
    let output: DiskutilOutput = parse_diskutil(CONTENT.as_bytes());
    let raid_status = get_raid_status(output);
    let first_status = raid_status.first().unwrap();
    let result = check_raid_health(first_status.clone());

    assert!(result.is_ok());
}

#[test]
fn test_healthy_set_has_no_faulty_devices() {
    let status = RaidStatus {
        uuid: "29A25F24-BEA2-47BA-B0F9-323CDF5545EC".to_string(),
        name: "DataRaid".to_string(),
        status: "Online".to_string(),
        devices: vec![
            RaidMember { bsdname: "disk3s2".to_string(), status: "Online".to_string() },
            RaidMember { bsdname: "disk2s2".to_string(), status: "Online".to_string() },
        ],
    };
    assert_eq!(check_raid_health(status), Ok(true));
}

#[test]
fn test_degraded_member_is_listed() {
    let status = RaidStatus {
        uuid: "29A25F24-BEA2-47BA-B0F9-323CDF5545EC".to_string(),
        name: "DataRaid".to_string(),
        status: "Online".to_string(),
        devices: vec![
            RaidMember { bsdname: "disk3s2".to_string(), status: "Online".to_string() },
            RaidMember { bsdname: "disk2s2".to_string(), status: "Degraded".to_string() },
        ],
    };
    assert_eq!(check_raid_health(status), Err("disk2s2".to_string()));
}

#[test]
fn test_offline_set_lists_all_faulty_members() {
    let status = RaidStatus {
        uuid: "u".to_string(),
        name: "n".to_string(),
        status: "Offline".to_string(),
        devices: vec![
            RaidMember { bsdname: "disk1s1".to_string(), status: "Degraded".to_string() },
            RaidMember { bsdname: "disk2s1".to_string(), status: "Online".to_string() },
            RaidMember { bsdname: "disk3s1".to_string(), status: "Failed".to_string() },
        ],
    };
    assert_eq!(check_raid_health(status), Err("disk1s1,disk3s1".to_string()));
}

#[test]
fn test_missing_raidsets_yield_no_status() {
    let status = get_raid_status(DiskutilOutput { raidsets: None });
    assert!(status.is_empty());
}
