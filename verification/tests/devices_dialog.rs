//! The saved-devices dialog.
//!
//! Names and MAC addresses are read by parsers outside this library. The tests
//! hand in what such a parser answers, and check what the fields make of it;
//! they say nothing of the parsers themselves.

use porthole_gui::alert::Appearance;
use porthole_gui::devices_dialog::{
    confirm_forget, forget_is_confirmed, name_neighbours, neighbour_subtitle, note_after_write,
    parsed_mac, parsed_name, saved_subtitle, Announcement, DeviceAddress, DevicesDialog, Field,
    ForgetResult, Loaded, Neighbour, NeighbourChoice, SaveEffect, SaveResult, SavedDevice,
    FORGET_CANCEL, FORGET_CONFIRM, NO_DEVICES_NOTE,
};
use porthole_gui::net::parse_ipv4;
use porthole_gui::text::text_to_read;

fn choice(mac: &str) -> NeighbourChoice {
    NeighbourChoice {
        mac: mac.to_string(),
        address: parse_ipv4("10.10.10.245").unwrap(),
        interface: "wlo1".to_string(),
        name: None,
    }
}

fn saved(name: &str, resolved: Result<&str, &str>) -> SavedDevice {
    SavedDevice {
        name: name.to_string(),
        address: "bc:24:11:5e:1c:6e".to_string(),
        resolved: match resolved {
            Ok(addr) => Ok(parse_ipv4(addr).unwrap()),
            Err(reason) => Err(reason.to_string()),
        },
    }
}

#[test]
fn a_subtitle_carries_a_name_when_there_is_one_and_nothing_when_there_is_not() {
    let mut with_name = choice("bc:24:11:5e:1c:6e");
    with_name.name = Some("phone.example".to_string());
    assert_eq!(
        neighbour_subtitle(&with_name),
        "phone.example · 10.10.10.245 on wlo1"
    );
    let without = choice("bc:24:11:5e:1c:6e");
    assert_eq!(neighbour_subtitle(&without), "10.10.10.245 on wlo1");
}

#[test]
fn a_name_the_tool_refuses_is_refused_here_in_the_tools_own_words() {
    for name in ["office:pc", "home/laptop", "subnet", "any", "10.0.0.5"] {
        assert_eq!(text_to_read(name).as_deref(), Some(name));
        let expected = format!("`{name}` cannot be a device's name");
        match parsed_name(name, Err(expected.clone())) {
            Field::Invalid(message) => assert_eq!(message, expected),
            _ => panic!("`{name}` must be refused"),
        }
    }
}

#[test]
fn an_ordinary_name_is_accepted_and_trimmed() {
    match parsed_name("  phone  ", Ok(())) {
        Field::Valid(name) => assert_eq!(name, "phone"),
        _ => panic!("`phone` must be accepted"),
    }
}

#[test]
fn an_empty_field_is_not_an_error_but_is_not_a_value_either() {
    let refusal = || Err("a device needs a name".to_string());
    assert!(matches!(parsed_name("   ", refusal()), Field::Empty));
    assert!(matches!(
        parsed_mac("", Err("not a MAC".to_string())),
        Field::Empty
    ));
    assert!(parsed_name("   ", refusal()).error().is_none());
    assert!(parsed_name("   ", refusal()).value().is_none());
}

#[test]
fn a_typed_mac_is_read_by_the_same_function_the_book_reads_it_with() {
    match parsed_mac("BC:24:11:5E:1C:6E", Ok("bc:24:11:5e:1c:6e".to_string())) {
        Field::Valid(mac) => assert_eq!(mac, "bc:24:11:5e:1c:6e"),
        _ => panic!("a capitalised MAC must be accepted, lower-cased"),
    }
    let expected = "`nope` is not a MAC address".to_string();
    match parsed_mac("nope", Err(expected.clone())) {
        Field::Invalid(message) => assert_eq!(message, expected),
        _ => panic!("`nope` must be refused"),
    }
}

#[test]
fn a_saved_device_that_resolves_says_only_what_it_resolves_to() {
    let subtitle = saved_subtitle(&saved("phone", Ok("10.10.10.245")));
    assert_eq!(
        subtitle,
        "bc:24:11:5e:1c:6e · resolves to 10.10.10.245 right now"
    );
    for word in ["reachable", "verified", "online", "responding"] {
        assert!(!subtitle.contains(word), "{subtitle} must not claim {word}");
    }
}

#[test]
fn a_saved_device_that_does_not_resolve_carries_the_resolvers_own_words() {
    let reason = "device not reachable: `laptop` (bc:24:11:5e:1c:6e) is not on this \
                  network right now";
    assert_eq!(saved_subtitle(&saved("laptop", Err(reason))), reason);
}

#[test]
fn saving_a_mac_that_is_not_here_says_so_without_saying_it_failed() {
    let reason = "device not reachable: `laptop` (bc:24:11:5e:1c:6e) is not on this \
                  network right now";
    let loaded = Loaded {
        saved: Ok(vec![saved("laptop", Err(reason))]),
        seen: Ok(Vec::new()),
    };
    let (text, marked) = note_after_write(
        &loaded,
        &Announcement {
            name: "laptop".to_string(),
            replaced: false,
        },
    );
    assert!(text.starts_with("Saved —"), "got: {text}");
    assert!(text.contains(reason), "got: {text}");
    assert!(marked, "a device that is not here is worth marking");
}

#[test]
fn overwriting_a_device_of_the_same_name_says_so() {
    let loaded = Loaded {
        saved: Ok(vec![saved("phone", Ok("10.10.10.245"))]),
        seen: Ok(vec![choice("bc:24:11:5e:1c:6e")]),
    };
    let (text, marked) = note_after_write(
        &loaded,
        &Announcement {
            name: "phone".to_string(),
            replaced: true,
        },
    );
    assert!(text.starts_with("Replaced —"), "got: {text}");
    assert!(text.contains("10.10.10.245"), "got: {text}");
    assert!(!marked, "a device that resolved needs no mark");
    assert_eq!(text, "Replaced — `phone` resolves to 10.10.10.245 right now");
}

#[test]
fn a_neighbour_row_says_which_interface_saw_it() {
    assert_eq!(
        neighbour_subtitle(&choice("bc:24:11:5e:1c:6e")),
        "10.10.10.245 on wlo1"
    );
}

#[test]
fn a_write_the_book_says_nothing_about_is_still_announced() {
    let loaded = Loaded::panicked();
    let (text, marked) = note_after_write(
        &loaded,
        &Announcement {
            name: "phone".to_string(),
            replaced: false,
        },
    );
    assert_eq!(text, "Saved `phone`");
    assert!(!marked);
}

#[test]
fn a_recorded_address_reads_as_it_was_written() {
    assert_eq!(
        DeviceAddress::Mac("bc:24:11:5e:1c:6e".to_string()).text(),
        "bc:24:11:5e:1c:6e"
    );
    assert_eq!(
        DeviceAddress::Host("nas.local".to_string()).text(),
        "nas.local"
    );
}

#[test]
fn every_neighbour_gets_the_name_of_its_own_address() {
    let found: Vec<Neighbour> = ["aa", "bb"]
        .iter()
        .map(|mac| Neighbour {
            mac: mac.to_string(),
            address: parse_ipv4("10.10.10.7").unwrap(),
            interface: "wlo1".to_string(),
        })
        .collect();
    let named = name_neighbours(&found, &[None, Some("tv".to_string())]);
    assert_eq!(named.len(), 2);
    assert_eq!(named[0].name, None);
    assert_eq!(named[1].name.as_deref(), Some("tv"));
    assert_eq!(named[1].mac, "bb");
    assert_eq!(name_neighbours(&found, &[None]).len(), 1);
}

#[test]
fn a_fresh_dialog_says_nothing_is_saved_and_saves_nothing() {
    let mut dialog = DevicesDialog::new();
    assert_eq!(dialog.saved_quiet().unwrap().label(), NO_DEVICES_NOTE);
    assert!(dialog.saved_trouble().is_none());
    assert!(!dialog.neighbours_quiet_is_showing());
    assert!(!dialog.can_save());
    assert!(dialog.press_save().is_none());
    assert_eq!(dialog.note(), None);
}

#[test]
fn both_fields_have_to_hold_a_value_before_anything_is_saved() {
    let mut dialog = DevicesDialog::new();
    dialog.set_name_text("office:pc", Err("not a name".to_string()));
    assert_eq!(dialog.name_error().as_deref(), Some("not a name"));
    dialog.set_mac_text("nope", Err("not a MAC".to_string()));
    assert_eq!(dialog.mac_error().as_deref(), Some("not a MAC"));
    assert!(!dialog.can_save());
    dialog.set_name_text("", Err("empty".to_string()));
    assert_eq!(dialog.name_error(), None);
    dialog.set_mac_text("AA:BB", Ok("aa:bb".to_string()));
    assert!(!dialog.can_save());
    dialog.set_name_text(" phone ", Ok(()));
    assert!(dialog.can_save());

    let device = dialog.press_save().unwrap();
    assert_eq!(device.name, "phone");
    assert!(matches!(device.address, DeviceAddress::Mac(mac) if mac == "aa:bb"));
    assert!(!dialog.can_save(), "a write is outstanding");
    dialog.set_name_text("phones", Ok(()));
    assert!(!dialog.can_save(), "and typing does not hand the button back");

    match dialog.save_answered("phone".to_string(), SaveResult::Failed("disk full".to_string())) {
        SaveEffect::Toast(message) => assert_eq!(message, "disk full"),
        SaveEffect::Reload(_) => panic!("the write failed"),
    }
    assert_eq!(dialog.name_text(), "phones");
    assert_eq!(dialog.mac_text(), "AA:BB");
    assert!(dialog.can_save());

    dialog.press_save();
    assert!(matches!(
        dialog.save_answered("phones".to_string(), SaveResult::Panicked),
        SaveEffect::Toast(message) if message == "saving the device panicked"
    ));
    dialog.press_save();
    match dialog.save_answered("phones".to_string(), SaveResult::Saved { replaced: true }) {
        SaveEffect::Reload(announcement) => {
            assert_eq!(announcement.name, "phones");
            assert!(announcement.replaced);
        }
        SaveEffect::Toast(message) => panic!("{message}"),
    }
    assert_eq!(dialog.name_text(), "");
    assert_eq!(dialog.mac_text(), "");
    assert!(!dialog.can_save());
}

#[test]
fn picking_a_row_fills_the_field_and_ticks_the_row() {
    let mut dialog = DevicesDialog::new();
    let mut named = choice("aa:bb");
    named.name = Some("phone.example".to_string());
    dialog.set_neighbours(&[choice("bc:24"), named]);
    assert_eq!(dialog.neighbour_labels(), vec!["bc:24", "aa:bb"]);
    assert!(dialog.names_caption_is_showing());
    assert!(!dialog.neighbour_is_picked(1));
    dialog.activate_neighbour(1, Ok("aa:bb".to_string()));
    assert_eq!(dialog.mac_text(), "aa:bb");
    assert!(dialog.neighbour_is_picked(1));
    assert!(!dialog.neighbour_is_picked(0));
    assert!(!dialog.neighbour_is_picked(5));

    // A list read again keeps the tick on the address in the field.
    dialog.set_neighbours(&[choice("aa:bb")]);
    assert!(dialog.neighbour_is_picked(0));
    assert!(!dialog.names_caption_is_showing());
    dialog.set_mac_text("aa:b", Err("not a MAC".to_string()));
    assert!(!dialog.neighbour_is_picked(0));
}

#[test]
fn what_could_not_be_read_is_not_shown_as_empty() {
    let mut dialog = DevicesDialog::new();
    dialog.set_saved_unreadable("permission denied");
    assert!(dialog.saved_quiet().is_none());
    let trouble = dialog.saved_trouble().unwrap();
    assert_eq!(trouble.title(), "Could not read the saved devices");
    assert_eq!(trouble.description().as_deref(), Some("permission denied"));

    dialog.set_neighbours_unavailable("no ip command");
    assert!(!dialog.neighbours_quiet_is_showing());
    assert_eq!(
        dialog.neighbours_trouble(),
        Some((
            "Could not list this network".to_string(),
            "no ip command".to_string()
        ))
    );

    dialog.set_saved(&[]);
    dialog.set_neighbours(&[]);
    assert!(dialog.saved_quiet().is_some());
    assert!(dialog.saved_trouble().is_none());
    assert!(dialog.neighbours_quiet_is_showing());
    assert_eq!(dialog.neighbours_trouble(), None);
}

#[test]
fn a_read_after_a_write_says_what_became_of_the_device() {
    let mut dialog = DevicesDialog::new();
    let loaded = Loaded {
        saved: Ok(vec![
            saved("phone", Ok("10.10.10.245")),
            saved("laptop", Err("not here")),
        ]),
        seen: Err("no ip command".to_string()),
    };
    dialog.loaded(
        &loaded,
        Some(Announcement {
            name: "laptop".to_string(),
            replaced: false,
        }),
    );
    assert_eq!(dialog.note().as_deref(), Some("Saved — not here"));
    assert!(dialog.note_is_marked());
    assert_eq!(dialog.saved_labels(), vec!["phone", "laptop"]);
    assert_eq!(dialog.saved_subtitles()[1], "not here");
    assert_eq!(dialog.forget_button(1).as_deref(), Some("laptop"));
    assert_eq!(dialog.forget_button(2), None);
    assert!(dialog.neighbours_trouble().is_some());

    dialog.loaded(&Loaded::panicked(), None);
    assert_eq!(
        dialog.saved_trouble().unwrap().description().as_deref(),
        Some("reading the saved devices panicked")
    );
    assert_eq!(
        dialog.neighbours_trouble().unwrap().1,
        "listing this network panicked"
    );
}

#[test]
fn forgetting_asks_first_and_says_what_happened() {
    let alert = confirm_forget("phone");
    assert_eq!(alert.heading, "Forget this device?");
    assert_eq!(
        alert.body,
        "`phone` stops being offered as a target. Nothing that is currently open changes."
    );
    assert_eq!(alert.close_response, FORGET_CANCEL);
    assert_eq!(alert.second.id, FORGET_CONFIRM);
    assert_eq!(alert.second.appearance, Appearance::Destructive);
    assert!(forget_is_confirmed(FORGET_CONFIRM));
    assert!(!forget_is_confirmed(FORGET_CANCEL));
    assert!(!forget_is_confirmed(""));

    let mut dialog = DevicesDialog::new();
    assert_eq!(
        dialog.forget_answered("phone", ForgetResult::Forgotten),
        ("Forgot `phone`.".to_string(), true)
    );
    assert_eq!(
        dialog.forget_answered("phone", ForgetResult::Failed("disk full".to_string())),
        ("disk full".to_string(), false)
    );
    assert_eq!(
        dialog.forget_answered("phone", ForgetResult::Panicked),
        ("forgetting the device panicked".to_string(), false)
    );
}
