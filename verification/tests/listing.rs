use bios_boot::model::Fault;
use bios_boot::partition::{
    entry_from_json, find_partition_by_type, listing_from_json, parse_listing, read_listing,
    BlockDevice, Devices,
};
use bios_boot::plan::CommandOutput;

const LSBLK_OUTPUT: &str = r#"{
   "blockdevices": [
      {
         "path": "/dev/sr0",
         "pttype": null,
         "parttypename": null
      },{
         "path": "/dev/zram0",
         "pttype": null,
         "parttypename": null
      },{
         "path": "/dev/vda",
         "pttype": "gpt",
         "parttypename": null
      },{
         "path": "/dev/vda1",
         "pttype": "gpt",
         "parttypename": "EFI System"
      },{
         "path": "/dev/vda2",
         "pttype": "gpt",
         "parttypename": "Linux extended boot"
      },{
         "path": "/dev/vda3",
         "pttype": "gpt",
         "parttypename": "Linux filesystem"
      },{
         "path": "/dev/mapper/luks-df2d5f95-5725-44dd-83e1-81bc4cdc49b8",
         "pttype": null,
         "parttypename": null
      }
   ]
}
"#;

fn entry(path: &str, pttype: Option<&str>, parttypename: Option<&str>) -> BlockDevice {
    BlockDevice {
        path: path.to_string(),
        pttype: pttype.map(|s| s.to_string()),
        parttypename: parttypename.map(|s| s.to_string()),
    }
}

fn output(success: bool, stdout: &[u8]) -> CommandOutput {
    CommandOutput { success, stdout: stdout.to_vec(), stderr: Vec::new() }
}

#[test]
fn test_deserialize_lsblk_output() {
    let data = LSBLK_OUTPUT;
    let devices: Devices = match parse_listing(data) {
        Ok(devices) => devices,
        Err(_) => panic!("JSON was not well-formatted"),
    };
    assert_eq!(devices.blockdevices.len(), 7);
    assert_eq!(devices.blockdevices[0].path, "/dev/sr0");
    assert!(devices.blockdevices[0].pttype.is_none());
    assert!(devices.blockdevices[0].parttypename.is_none());
}

#[test]
fn listing_keeps_every_entry_in_order() {
    let devices = parse_listing(LSBLK_OUTPUT).unwrap();
    let paths: Vec<&str> = devices.blockdevices.iter().map(|d| d.path.as_str()).collect();
    assert_eq!(
        paths,
        vec![
            "/dev/sr0",
            "/dev/zram0",
            "/dev/vda",
            "/dev/vda1",
            "/dev/vda2",
            "/dev/vda3",
            "/dev/mapper/luks-df2d5f95-5725-44dd-83e1-81bc4cdc49b8",
        ]
    );
    assert_eq!(devices.blockdevices[2], entry("/dev/vda", Some("gpt"), None));
    assert_eq!(devices.blockdevices[3], entry("/dev/vda1", Some("gpt"), Some("EFI System")));
}

#[test]
fn listing_without_bios_boot_finds_nothing() {
    let devices = parse_listing(LSBLK_OUTPUT).unwrap();
    assert_eq!(find_partition_by_type(&devices, "gpt", "BIOS boot"), None);
}

#[test]
fn missing_optional_members_read_as_absent() {
    let devices = parse_listing(r#"{"blockdevices":[{"path":"/dev/sda"}]}"#).unwrap();
    assert_eq!(devices.blockdevices, vec![entry("/dev/sda", None, None)]);
}

#[test]
fn unknown_members_are_ignored() {
    let text = r#"{"version": 2, "blockdevices":[
        {"name":"sda1","path":"/dev/sda1","size":1048576,"pttype":"gpt",
         "parttypename":"BIOS boot","children":[{"path":"/dev/x"}]}]}"#;
    let devices = parse_listing(text).unwrap();
    assert_eq!(devices.blockdevices, vec![entry("/dev/sda1", Some("gpt"), Some("BIOS boot"))]);
}

#[test]
fn empty_listing_is_well_formed() {
    let devices = parse_listing(r#"{"blockdevices":[]}"#).unwrap();
    assert!(devices.blockdevices.is_empty());
    assert_eq!(find_partition_by_type(&devices, "gpt", "BIOS boot"), None);
}

#[test]
fn text_that_is_no_json_is_malformed() {
    assert_eq!(parse_listing("NAME PATH\nsda /dev/sda\n"), Err(Fault::Malformed));
    assert_eq!(parse_listing(""), Err(Fault::Malformed));
    assert_eq!(parse_listing(r#"{"blockdevices":[]} trailing"#), Err(Fault::Malformed));
}

#[test]
fn json_of_another_shape_is_malformed() {
    assert_eq!(parse_listing(r#"{}"#), Err(Fault::Malformed));
    assert_eq!(parse_listing(r#"[]"#), Err(Fault::Malformed));
    assert_eq!(parse_listing(r#"{"blockdevices":{"path":"/dev/sda"}}"#), Err(Fault::Malformed));
    assert_eq!(parse_listing(r#"{"blockdevices":[{"pttype":"gpt"}]}"#), Err(Fault::Malformed));
    assert_eq!(parse_listing(r#"{"blockdevices":[{"path":null}]}"#), Err(Fault::Malformed));
    assert_eq!(parse_listing(r#"{"blockdevices":[{"path":7}]}"#), Err(Fault::Malformed));
    assert_eq!(
        parse_listing(r#"{"blockdevices":[{"path":"/dev/sda","pttype":1}]}"#),
        Err(Fault::Malformed)
    );
    assert_eq!(
        parse_listing(r#"{"blockdevices":[{"path":"/dev/sda","parttypename":["BIOS boot"]}]}"#),
        Err(Fault::Malformed)
    );
    assert_eq!(
        parse_listing(r#"{"blockdevices":[{"path":"/dev/sda"}, "/dev/sdb"]}"#),
        Err(Fault::Malformed)
    );
}

#[test]
fn one_bad_entry_spoils_the_listing() {
    let text = r#"{"blockdevices":[{"path":"/dev/sda"},{"path":"/dev/sdb"},{"pttype":"gpt"}]}"#;
    assert_eq!(parse_listing(text), Err(Fault::Malformed));
}

#[test]
fn entries_are_read_from_parsed_json() {
    let doc: serde_json::Value =
        serde_json::from_str(r#"{"path":"/dev/sda2","pttype":"dos","parttypename":null}"#).unwrap();
    assert_eq!(entry_from_json(&doc), Some(entry("/dev/sda2", Some("dos"), None)));
    let doc: serde_json::Value = serde_json::from_str(r#""/dev/sda2""#).unwrap();
    assert_eq!(entry_from_json(&doc), None);
    let doc: serde_json::Value =
        serde_json::from_str(r#"{"blockdevices":[{"path":"/dev/sda"}]}"#).unwrap();
    assert_eq!(
        listing_from_json(&doc),
        Some(Devices { blockdevices: vec![entry("/dev/sda", None, None)] })
    );
    let doc: serde_json::Value = serde_json::from_str(r#"{"blockdevices":null}"#).unwrap();
    assert_eq!(listing_from_json(&doc), None);
}

#[test]
fn first_matching_partition_is_found() {
    let devices = Devices {
        blockdevices: vec![
            entry("/dev/sda", Some("gpt"), None),
            entry("/dev/sda1", Some("gpt"), Some("EFI System")),
            entry("/dev/sda2", Some("gpt"), Some("BIOS boot")),
            entry("/dev/sda3", Some("gpt"), Some("BIOS boot")),
        ],
    };
    assert_eq!(
        find_partition_by_type(&devices, "gpt", "BIOS boot"),
        Some("/dev/sda2".to_string())
    );
    assert_eq!(
        find_partition_by_type(&devices, "gpt", "EFI System"),
        Some("/dev/sda1".to_string())
    );
}

#[test]
fn both_table_and_type_must_match() {
    let devices = Devices {
        blockdevices: vec![
            entry("/dev/sda1", Some("dos"), Some("BIOS boot")),
            entry("/dev/sda2", None, Some("BIOS boot")),
            entry("/dev/sda3", Some("gpt"), Some("BIOS boot ")),
            entry("/dev/sda4", Some("gpt"), Some("bios boot")),
            entry("/dev/sda5", Some("gpt"), None),
        ],
    };
    assert_eq!(find_partition_by_type(&devices, "gpt", "BIOS boot"), None);
    assert_eq!(
        find_partition_by_type(&devices, "dos", "BIOS boot"),
        Some("/dev/sda1".to_string())
    );
}

#[test]
fn listing_is_read_from_tool_output() {
    let devices = read_listing(output(true, LSBLK_OUTPUT.as_bytes())).unwrap();
    assert_eq!(devices.blockdevices.len(), 7);
    assert_eq!(read_listing(output(false, LSBLK_OUTPUT.as_bytes())), Err(Fault::ToolFailed));
    assert_eq!(read_listing(output(true, &[0x7b, 0xff, 0x7d])), Err(Fault::NotText));
    assert_eq!(read_listing(output(true, b"lsblk: not a block device")), Err(Fault::Malformed));
}

#[test]
fn listing_text_may_hold_any_unicode() {
    let devices =
        parse_listing("{\"blockdevices\":[{\"path\":\"/dev/d\u{e9}j\u{e0}\",\"pttype\":\"gpt\"}]}")
            .unwrap();
    assert_eq!(devices.blockdevices, vec![entry("/dev/d\u{e9}j\u{e0}", Some("gpt"), None)]);
}
