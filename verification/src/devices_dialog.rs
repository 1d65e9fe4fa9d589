//! The saved-devices dialog: where the address book is read and written.
//!
//! Two fields make a device, and each is read by the book's own rules: the
//! dialog is told the answer along with the text and shows a refusal word for
//! word. Picking a device seen on the network fills the address field, which
//! is the only thing a save reads. A book or a network that could not be
//! read is never shown as an empty one.

use crate::alert::{Alert, AlertView, Appearance, Response, ResponseView};
use crate::net::{dotted, Ipv4Addr};
use crate::quiet::{quiet_note, QuietNote, TroubleNote, TroubleView};
use crate::text::{
    copy_text, is_white_space, same_text, text3, text4, text5, text_of, text_to_read, texts,
    trimmed, trimming_to_nothing, views,
};
use vstd::prelude::*;
use vstd::string::*;

verus! {

/// The address the book records for a device.
#[derive(Debug)]
pub enum DeviceAddress {
    Mac(String),
    Host(String),
}

impl DeviceAddress {
    pub open spec fn form(self) -> Seq<char> {
        match self {
            DeviceAddress::Mac(mac) => mac@,
            DeviceAddress::Host(host) => host@,
        }
    }

    /// The address as it was written down.
    pub fn text(&self) -> (r: String)
        ensures
            r@ == self.form(),
    {
        match self {
            DeviceAddress::Mac(mac) => mac.clone(),
            DeviceAddress::Host(host) => host.clone(),
        }
    }
}

/// A device to write into the book.
#[derive(Debug)]
pub struct Device {
    pub name: String,
    pub address: DeviceAddress,
}

/// One saved device: what the book records, and what that resolves to right
/// now, or why it does not.
#[derive(Debug, PartialEq, Eq)]
pub struct SavedDevice {
    pub name: String,
    pub address: String,
    pub resolved: Result<Ipv4Addr, String>,
}

#[verifier::ext_equal]
pub struct SavedView {
    pub name: Seq<char>,
    pub address: Seq<char>,
    pub resolved: Result<Ipv4Addr, Seq<char>>,
}

impl View for SavedDevice {
    type V = SavedView;

    open spec fn view(&self) -> SavedView {
        SavedView {
            name: self.name@,
            address: self.address@,
            resolved: match self.resolved {
                Ok(addr) => Ok(addr),
                Err(reason) => Err(reason@),
            },
        }
    }
}

/// One device the network has seen.
#[derive(Debug)]
pub struct Neighbour {
    pub mac: String,
    pub address: Ipv4Addr,
    pub interface: String,
}

/// One device the picker offers. The name is what this machine's resolver
/// answered for the address, where it answered anything.
#[derive(Debug, PartialEq, Eq)]
pub struct NeighbourChoice {
    pub mac: String,
    pub address: Ipv4Addr,
    pub interface: String,
    pub name: Option<String>,
}

#[verifier::ext_equal]
pub struct ChoiceView {
    pub mac: Seq<char>,
    pub address: Ipv4Addr,
    pub interface: Seq<char>,
    pub name: Option<Seq<char>>,
}

impl View for NeighbourChoice {
    type V = ChoiceView;

    open spec fn view(&self) -> ChoiceView {
        ChoiceView {
            mac: self.mac@,
            address: self.address,
            interface: self.interface@,
            name: text_of(self.name),
        }
    }
}

/// What the picker offers for the devices seen, given the resolver's answers
/// for their addresses, one for one. A device without an answer of its own is
/// not offered.
pub fn name_neighbours(found: &[Neighbour], names: &[Option<String>]) -> (r: Vec<NeighbourChoice>)
    ensures
        r@.len() == (if found@.len() <= names@.len() {
            found@.len()
        } else {
            names@.len()
        }),
        forall|i: int|
            0 <= i < r@.len() ==> (#[trigger] r@[i])@ == (ChoiceView {
                mac: found@[i].mac@,
                address: found@[i].address,
                interface: found@[i].interface@,
                name: text_of(names@[i]),
            }),
{
    let mut r: Vec<NeighbourChoice> = Vec::new();
    let n: usize = if found.len() <= names.len() {
        found.len()
    } else {
        names.len()
    };
    for i in 0..n
        invariant
            n <= found@.len(),
            n <= names@.len(),
            r@.len() == i,
            forall|j: int|
                0 <= j < i ==> (#[trigger] r@[j])@ == (ChoiceView {
                    mac: found@[j].mac@,
                    address: found@[j].address,
                    interface: found@[j].interface@,
                    name: text_of(names@[j]),
                }),
    {
        r.push(
            NeighbourChoice {
                mac: found[i].mac.clone(),
                address: found[i].address,
                interface: found[i].interface.clone(),
                name: copy_text(&names[i]),
            },
        );
    }
    r
}

/// What a picker row says under the MAC it offers.
pub open spec fn neighbour_line(choice: ChoiceView) -> Seq<char> {
    match choice.name {
        Some(name) => name + " · "@ + dotted(choice.address) + " on "@ + choice.interface,
        None => dotted(choice.address) + " on "@ + choice.interface,
    }
}

pub fn neighbour_subtitle(choice: &NeighbourChoice) -> (r: String)
    ensures
        r@ == neighbour_line(choice@),
{
    let address: String = choice.address.text();
    match &choice.name {
        Some(name) => text5(
            name.as_str(),
            " · ",
            address.as_str(),
            " on ",
            choice.interface.as_str(),
        ),
        None => text3(address.as_str(), " on ", choice.interface.as_str()),
    }
}

/// What a saved device's row says under its name.
pub open spec fn saved_line(device: SavedView) -> Seq<char> {
    match device.resolved {
        Ok(addr) => device.address + " · resolves to "@ + dotted(addr) + " right now"@,
        Err(reason) => reason,
    }
}

pub fn saved_subtitle(device: &SavedDevice) -> (r: String)
    ensures
        r@ == saved_line(device@),
{
    match &device.resolved {
        Ok(addr) => text4(
            device.address.as_str(),
            " · resolves to ",
            addr.text().as_str(),
            " right now",
        ),
        Err(reason) => reason.clone(),
    }
}

/// What a field a person is typing into holds.
#[derive(Debug)]
pub enum Field {
    Empty,
    Invalid(String),
    Valid(String),
}

pub enum FieldView {
    Empty,
    Invalid(Seq<char>),
    Valid(Seq<char>),
}

impl View for Field {
    type V = FieldView;

    open spec fn view(&self) -> FieldView {
        match self {
            Field::Empty => FieldView::Empty,
            Field::Invalid(message) => FieldView::Invalid(message@),
            Field::Valid(value) => FieldView::Valid(value@),
        }
    }
}

impl FieldView {
    pub open spec fn error(self) -> Option<Seq<char>> {
        match self {
            FieldView::Invalid(message) => Some(message),
            _ => None,
        }
    }

    pub open spec fn value(self) -> Option<Seq<char>> {
        match self {
            FieldView::Valid(value) => Some(value),
            _ => None,
        }
    }
}

impl Field {
    /// The refusal to show, if there is one.
    pub fn error(&self) -> (r: Option<String>)
        ensures
            text_of(r) == self@.error(),
    {
        match self {
            Field::Invalid(message) => Some(message.clone()),
            _ => None,
        }
    }

    /// The value a save would use, if there is one.
    pub fn value(&self) -> (r: Option<String>)
        ensures
            text_of(r) == self@.value(),
    {
        match self {
            Field::Valid(value) => Some(value.clone()),
            _ => None,
        }
    }
}

/// What a name field holding `text` amounts to, given the book's verdict on
/// the trimmed text: the trimmed text itself, or the refusal.
pub open spec fn name_read(text: Seq<char>, verdict: Result<(), String>) -> FieldView {
    if trimmed(text).len() == 0 {
        FieldView::Empty
    } else {
        match verdict {
            Ok(_) => FieldView::Valid(trimmed(text)),
            Err(message) => FieldView::Invalid(message@),
        }
    }
}

pub fn parsed_name(text: &str, verdict: Result<(), String>) -> (r: Field)
    ensures
        r@ == name_read(text@, verdict),
{
    match text_to_read(text) {
        None => Field::Empty,
        Some(name) => match verdict {
            Ok(()) => Field::Valid(name),
            Err(message) => Field::Invalid(message),
        },
    }
}

/// What an address field holding `text` amounts to, given what the trimmed
/// text was read as.
pub open spec fn mac_read(text: Seq<char>, read: Result<String, String>) -> FieldView {
    if trimmed(text).len() == 0 {
        FieldView::Empty
    } else {
        match read {
            Ok(mac) => FieldView::Valid(mac@),
            Err(message) => FieldView::Invalid(message@),
        }
    }
}

pub fn parsed_mac(text: &str, read: Result<String, String>) -> (r: Field)
    ensures
        r@ == mac_read(text@, read),
{
    match text_to_read(text) {
        None => Field::Empty,
        Some(_) => match read {
            Ok(mac) => Field::Valid(mac),
            Err(message) => Field::Invalid(message),
        },
    }
}

/// What was just written to the book.
#[derive(Debug)]
pub struct Announcement {
    pub name: String,
    pub replaced: bool,
}

/// The book and the network, each with a failure of its own.
#[derive(Debug)]
pub struct Loaded {
    pub saved: Result<Vec<SavedDevice>, String>,
    pub seen: Result<Vec<NeighbourChoice>, String>,
}

impl Loaded {
    /// What a read that never finished amounts to.
    pub fn panicked() -> (r: Self)
        ensures
            r.saved matches Err(m) && m@ == "reading the saved devices panicked"@,
            r.seen matches Err(m) && m@ == "listing this network panicked"@,
    {
        Loaded {
            saved: Err("reading the saved devices panicked".to_owned()),
            seen: Err("listing this network panicked".to_owned()),
        }
    }
}

/// The first saved device of this name.
pub open spec fn saved_named(saved: Seq<SavedView>, name: Seq<char>) -> Option<SavedView>
    decreases saved.len(),
{
    if saved.len() == 0 {
        None
    } else if saved[0].name == name {
        Some(saved[0])
    } else {
        saved_named(saved.drop_first(), name)
    }
}

fn find_saved<'a>(saved: &'a Vec<SavedDevice>, name: &str) -> (r: Option<&'a SavedDevice>)
    ensures
        match r {
            Some(device) => saved_named(views(saved@), name@) == Some(device@),
            None => saved_named(views(saved@), name@) is None,
        },
{
    let n: usize = saved.len();
    let mut i: usize = 0;
    assert(views(saved@).skip(0) =~= views(saved@));
    while i < n
        invariant
            n == saved@.len(),
            i <= n,
            saved_named(views(saved@), name@) == saved_named(
                views(saved@).skip(i as int),
                name@,
            ),
        decreases n - i,
    {
        assert(views(saved@).skip(i as int)[0] == saved@[i as int]@);
        if same_text(saved[i].name.as_str(), name) {
            return Some(&saved[i]);
        }
        assert(views(saved@).skip(i as int).drop_first() =~= views(saved@).skip(i + 1));
        i += 1;
    }
    None
}

/// The views of a list that could not always be read.
pub open spec fn views_of<T: View>(list: Result<Vec<T>, String>) -> Result<Seq<T::V>, Seq<char>> {
    match list {
        Ok(items) => Ok(views(items@)),
        Err(reason) => Err(reason@),
    }
}

/// What is said after a write: which of the two things happened, and what the
/// freshly read book makes of the device. A resolution that failed is worth
/// marking: the device was saved either way.
pub open spec fn note_for(
    saved: Result<Seq<SavedView>, Seq<char>>,
    name: Seq<char>,
    replaced: bool,
) -> (Seq<char>, bool) {
    let verb = if replaced {
        "Replaced"@
    } else {
        "Saved"@
    };
    let row = match saved {
        Ok(devices) => saved_named(devices, name),
        Err(_) => None,
    };
    match row {
        Some(device) => match device.resolved {
            Ok(addr) => (
                verb + " — `"@ + name + "` resolves to "@ + dotted(addr) + " right now"@,
                false,
            ),
            Err(reason) => (verb + " — "@ + reason, true),
        },
        None => (verb + " `"@ + name + "`"@, false),
    }
}

pub fn note_after_write(loaded: &Loaded, announcement: &Announcement) -> (r: (String, bool))
    ensures
        (r.0@, r.1) == note_for(views_of(loaded.saved), announcement.name@, announcement.replaced),
{
    let verb: &str = if announcement.replaced {
        "Replaced"
    } else {
        "Saved"
    };
    let row: Option<&SavedDevice> = match &loaded.saved {
        Ok(devices) => find_saved(devices, announcement.name.as_str()),
        Err(_) => None,
    };
    match row {
        Some(device) => match &device.resolved {
            Ok(addr) => {
                let mut note: String = text4(
                    verb,
                    " — `",
                    announcement.name.as_str(),
                    "` resolves to ",
                );
                note.append(addr.text().as_str());
                note.append(" right now");
                (note, false)
            },
            Err(reason) => (text3(verb, " — ", reason.as_str()), true),
        },
        None => (text4(verb, " `", announcement.name.as_str(), "`"), false),
    }
}

/// The response id that forgets a device.
pub const FORGET_CONFIRM: &'static str = "forget";

/// The response id that backs out, which closing the alert amounts to.
pub const FORGET_CANCEL: &'static str = "cancel";

pub open spec fn forget_question(name: Seq<char>) -> AlertView {
    AlertView {
        heading: "Forget this device?"@,
        body: "`"@ + name
            + "` stops being offered as a target. Nothing that is currently open changes."@,
        close_response: FORGET_CANCEL@,
        default_response: FORGET_CANCEL@,
        first: ResponseView {
            id: FORGET_CANCEL@,
            label: "Cancel"@,
            appearance: Appearance::Default,
        },
        second: ResponseView {
            id: FORGET_CONFIRM@,
            label: "Forget"@,
            appearance: Appearance::Destructive,
        },
    }
}

/// The question put before a device is forgotten.
pub fn confirm_forget(name: &str) -> (r: Alert)
    ensures
        r@ == forget_question(name@),
{
    Alert {
        heading: "Forget this device?".to_owned(),
        body: text3(
            "`",
            name,
            "` stops being offered as a target. Nothing that is currently open changes.",
        ),
        close_response: FORGET_CANCEL.to_owned(),
        default_response: FORGET_CANCEL.to_owned(),
        first: Response::new(FORGET_CANCEL, "Cancel", Appearance::Default),
        second: Response::new(FORGET_CONFIRM, "Forget", Appearance::Destructive),
    }
}

/// Whether an answer to that question forgets the device.
pub fn forget_is_confirmed(response: &str) -> (r: bool)
    ensures
        r == (response@ == FORGET_CONFIRM@),
{
    same_text(response, FORGET_CONFIRM)
}

/// Nothing but the button that says so forgets a device: neither closing the
/// question nor pressing Enter on it.
pub proof fn only_confirming_forgets(name: Seq<char>)
    ensures
        forget_question(name).close_response != FORGET_CONFIRM@,
        forget_question(name).default_response != FORGET_CONFIRM@,
        forget_question(name).second.id == FORGET_CONFIRM@,
{
    reveal_strlit("forget");
    reveal_strlit("cancel");
    assert(FORGET_CONFIRM@[0] == 'f');
    assert(FORGET_CANCEL@[0] == 'c');
}

/// The quiet line in place of an empty book.
pub const NO_DEVICES_NOTE: &'static str =
    "No devices saved yet. Save one above and it becomes a target in the open dialog.";

/// The quiet line in place of an empty network.
pub const NOTHING_SEEN_NOTE: &'static str =
    "Nothing has been seen on this network yet. A device that is switched off will \
     not appear here; its MAC address can still be typed above.";

/// The line that explains where a picker row's name comes from.
pub const NAMES_CAPTION: &'static str =
    "The name on a row is what this machine's resolver answered for that address. The \
     MAC is what gets saved.";

pub const SAVED_TROUBLE_TITLE: &'static str = "Could not read the saved devices";

pub const NEIGHBOURS_TROUBLE_TITLE: &'static str = "Could not list this network";

/// One picker row.
#[derive(Debug)]
pub struct NeighbourRow {
    mac: String,
    subtitle: String,
    picked: bool,
}

#[verifier::ext_equal]
pub struct NeighbourRowView {
    pub mac: Seq<char>,
    pub subtitle: Seq<char>,
    /// Whether the row carries the tick that says its MAC is in the field.
    pub picked: bool,
}

impl View for NeighbourRow {
    type V = NeighbourRowView;

    closed spec fn view(&self) -> NeighbourRowView {
        NeighbourRowView { mac: self.mac@, subtitle: self.subtitle@, picked: self.picked }
    }
}

/// One saved-device row.
#[derive(Debug)]
pub struct SavedRow {
    name: String,
    subtitle: String,
}

#[verifier::ext_equal]
pub struct SavedRowView {
    pub name: Seq<char>,
    pub subtitle: Seq<char>,
}

impl View for SavedRow {
    type V = SavedRowView;

    closed spec fn view(&self) -> SavedRowView {
        SavedRowView { name: self.name@, subtitle: self.subtitle@ }
    }
}

/// The saved-devices dialog.
#[derive(Debug)]
pub struct DevicesDialog {
    name_text: String,
    name: Field,
    name_error: Option<String>,
    mac_text: String,
    mac: Field,
    mac_error: Option<String>,
    neighbour_rows: Vec<NeighbourRow>,
    list_shown: bool,
    quiet_shown: bool,
    caption_shown: bool,
    neighbours_trouble: TroubleNote,
    save_sensitive: bool,
    note: Option<String>,
    note_marked: bool,
    saving: bool,
    saved_rows: Vec<SavedRow>,
    saved_quiet: bool,
    saved_trouble: TroubleNote,
}

#[verifier::ext_equal]
pub struct DevicesView {
    pub name_text: Seq<char>,
    pub name: FieldView,
    pub name_error: Option<Seq<char>>,
    pub mac_text: Seq<char>,
    pub mac: FieldView,
    pub mac_error: Option<Seq<char>>,
    pub neighbour_rows: Seq<NeighbourRowView>,
    pub list_shown: bool,
    pub quiet_shown: bool,
    pub caption_shown: bool,
    pub neighbours_trouble: TroubleView,
    pub save_sensitive: bool,
    /// What the last write said, while it is on screen.
    pub note: Option<Seq<char>>,
    pub note_marked: bool,
    /// Whether a write is outstanding.
    pub saving: bool,
    pub saved_rows: Seq<SavedRowView>,
    /// Whether the quiet line stands in for the saved devices.
    pub saved_quiet: bool,
    /// The failure that stands in for the saved devices, while it does.
    pub saved_trouble: TroubleView,
}

impl View for DevicesDialog {
    type V = DevicesView;

    closed spec fn view(&self) -> DevicesView {
        DevicesView {
            name_text: self.name_text@,
            name: self.name@,
            name_error: text_of(self.name_error),
            mac_text: self.mac_text@,
            mac: self.mac@,
            mac_error: text_of(self.mac_error),
            neighbour_rows: views(self.neighbour_rows@),
            list_shown: self.list_shown,
            quiet_shown: self.quiet_shown,
            caption_shown: self.caption_shown,
            neighbours_trouble: self.neighbours_trouble@,
            save_sensitive: self.save_sensitive,
            note: text_of(self.note),
            note_marked: self.note_marked,
            saving: self.saving,
            saved_rows: views(self.saved_rows@),
            saved_quiet: self.saved_quiet,
            saved_trouble: self.saved_trouble@,
        }
    }
}

pub open spec fn saved_row(device: SavedView) -> SavedRowView {
    SavedRowView { name: device.name, subtitle: saved_line(device) }
}

impl DevicesView {
    pub open spec fn fresh() -> Self {
        DevicesView {
            name_text: Seq::empty(),
            name: FieldView::Empty,
            name_error: None,
            mac_text: Seq::empty(),
            mac: FieldView::Empty,
            mac_error: None,
            neighbour_rows: Seq::empty(),
            list_shown: false,
            quiet_shown: false,
            caption_shown: false,
            neighbours_trouble: TroubleView {
                title: Seq::empty(),
                description: Seq::empty(),
                showing: false,
            },
            save_sensitive: false,
            note: None,
            note_marked: false,
            saving: false,
            saved_rows: Seq::empty(),
            saved_quiet: true,
            saved_trouble: TroubleView {
                title: SAVED_TROUBLE_TITLE@,
                description: Seq::empty(),
                showing: false,
            },
        }
    }

    /// The name and the MAC a save would write.
    pub open spec fn device(self) -> Option<(Seq<char>, Seq<char>)> {
        match (self.name.value(), self.mac.value()) {
            (Some(name), Some(mac)) => Some((name, mac)),
            _ => None,
        }
    }

    /// Whether picker row `i` is the one in the address field.
    pub open spec fn is_chosen(self, i: int) -> bool {
        self.mac.value() == Some(self.neighbour_rows[i].mac)
    }

    /// The refusals, the ticks and the Save button brought in line with the
    /// two fields.
    pub open spec fn settled(self) -> Self {
        DevicesView {
            name_error: self.name.error(),
            mac_error: self.mac.error(),
            neighbour_rows: Seq::new(
                self.neighbour_rows.len(),
                |i: int|
                    NeighbourRowView { picked: self.is_chosen(i), ..self.neighbour_rows[i] },
            ),
            save_sensitive: !self.saving && self.device() is Some,
            ..self
        }
    }

    pub open spec fn with_name(self, text: Seq<char>, verdict: Result<(), String>) -> Self {
        DevicesView { name_text: text, name: name_read(text, verdict), ..self }.settled()
    }

    pub open spec fn with_mac(self, text: Seq<char>, read: Result<String, String>) -> Self {
        DevicesView { mac_text: text, mac: mac_read(text, read), ..self }.settled()
    }

    pub open spec fn with_neighbours(self, seen: Seq<ChoiceView>) -> Self {
        DevicesView {
            neighbour_rows: Seq::new(
                seen.len(),
                |i: int|
                    NeighbourRowView {
                        mac: seen[i].mac,
                        subtitle: neighbour_line(seen[i]),
                        picked: false,
                    },
            ),
            list_shown: seen.len() > 0,
            quiet_shown: seen.len() == 0,
            caption_shown: exists|i: int| 0 <= i < seen.len() && (#[trigger] seen[i]).name is Some,
            neighbours_trouble: TroubleView { showing: false, ..self.neighbours_trouble },
            ..self
        }.settled()
    }

    pub open spec fn with_neighbours_unavailable(self, reason: Seq<char>) -> Self {
        DevicesView {
            neighbour_rows: Seq::empty(),
            list_shown: false,
            quiet_shown: false,
            caption_shown: false,
            neighbours_trouble: TroubleView {
                title: NEIGHBOURS_TROUBLE_TITLE@,
                description: reason,
                showing: true,
            },
            ..self
        }.settled()
    }

    pub open spec fn with_saved(self, devices: Seq<SavedView>) -> Self {
        DevicesView {
            saved_rows: Seq::new(devices.len(), |i: int| saved_row(devices[i])),
            saved_quiet: devices.len() == 0,
            saved_trouble: TroubleView { showing: false, ..self.saved_trouble },
            ..self
        }
    }

    pub open spec fn with_saved_unreadable(self, reason: Seq<char>) -> Self {
        DevicesView {
            saved_rows: Seq::empty(),
            saved_quiet: false,
            saved_trouble: TroubleView {
                title: SAVED_TROUBLE_TITLE@,
                description: reason,
                showing: true,
            },
            ..self
        }
    }

    pub open spec fn with_note(self, note: Option<(Seq<char>, bool)>) -> Self {
        match note {
            Some((text, marked)) => DevicesView { note: Some(text), note_marked: marked, ..self },
            None => DevicesView { note: None, note_marked: false, ..self },
        }
    }

    /// The book and the network rendered, each as itself.
    pub open spec fn with_loaded(
        self,
        saved: Result<Seq<SavedView>, Seq<char>>,
        seen: Result<Seq<ChoiceView>, Seq<char>>,
    ) -> Self {
        let first = match saved {
            Ok(devices) => self.with_saved(devices),
            Err(reason) => self.with_saved_unreadable(reason),
        };
        match seen {
            Ok(choices) => first.with_neighbours(choices),
            Err(reason) => first.with_neighbours_unavailable(reason),
        }
    }

    /// A write has gone out.
    pub open spec fn saving_begun(self) -> Self {
        DevicesView { saving: true, ..self }.settled().with_note(None)
    }

    /// A write has come back. Only one that worked clears the fields.
    pub open spec fn saving_over(self, worked: bool) -> Self {
        if worked {
            DevicesView {
                saving: false,
                name_text: Seq::empty(),
                name: FieldView::Empty,
                mac_text: Seq::empty(),
                mac: FieldView::Empty,
                ..self
            }.settled()
        } else {
            DevicesView { saving: false, ..self }.settled()
        }
    }

    /// The refusals, the ticks and the Save button say what the fields hold;
    /// the picker shows at most one of a list, a quiet line and a failure;
    /// and so does the list of saved devices, which always shows one.
    pub open spec fn well_formed(self) -> bool {
        &&& self == self.settled()
        &&& !(self.list_shown && self.quiet_shown)
        &&& !(self.list_shown && self.neighbours_trouble.showing)
        &&& !(self.quiet_shown && self.neighbours_trouble.showing)
        &&& self.list_shown <==> self.neighbour_rows.len() > 0
        &&& self.saved_quiet ==> self.saved_rows.len() == 0 && !self.saved_trouble.showing
        &&& self.saved_trouble.showing ==> self.saved_rows.len() == 0
        &&& self.saved_quiet || self.saved_trouble.showing || self.saved_rows.len() > 0
        &&& self.note is None ==> !self.note_marked
    }
}

/// Bringing things in line twice is bringing them in line once.
proof fn settling_settles(v: DevicesView)
    ensures
        v.settled() == v.settled().settled(),
{
    assert(v.settled().neighbour_rows =~= v.settled().settled().neighbour_rows);
    assert(v.settled() =~= v.settled().settled());
}

/// How a write to the book ended.
#[derive(Debug)]
pub enum SaveResult {
    Saved { replaced: bool },
    Failed(String),
    Panicked,
}

/// What is done once a write has ended.
#[derive(Debug)]
pub enum SaveEffect {
    /// Read the book again and say what happened; others are told it changed.
    Reload(Announcement),
    /// Show this message.
    Toast(String),
}

/// How a removal from the book ended.
#[derive(Debug)]
pub enum ForgetResult {
    Forgotten,
    Failed(String),
    Panicked,
}

impl DevicesDialog {
    pub fn new() -> (r: Self)
        ensures
            r@ == DevicesView::fresh(),
            r@.well_formed(),
    {
        let mut saved_trouble: TroubleNote = TroubleNote::new();
        saved_trouble.set_title(SAVED_TROUBLE_TITLE);
        let r = DevicesDialog {
            name_text: String::new(),
            name: Field::Empty,
            name_error: None,
            mac_text: String::new(),
            mac: Field::Empty,
            mac_error: None,
            neighbour_rows: Vec::new(),
            list_shown: false,
            quiet_shown: false,
            caption_shown: false,
            neighbours_trouble: TroubleNote::new(),
            save_sensitive: false,
            note: None,
            note_marked: false,
            saving: false,
            saved_rows: Vec::new(),
            saved_quiet: true,
            saved_trouble,
        };
        assert(r@ =~= DevicesView::fresh());
        assert(r@ =~= r@.settled());
        r
    }

    /// The device the Save button would write.
    fn build_device(&self) -> (r: Option<Device>)
        ensures
            match r {
                Some(device) => self@.device() == Some((device.name@, device.address.form()))
                    && device.address is Mac,
                None => self@.device() is None,
            },
    {
        match (self.name.value(), self.mac.value()) {
            (Some(name), Some(mac)) => Some(Device { name, address: DeviceAddress::Mac(mac) }),
            _ => None,
        }
    }

    /// Brings the refusals, the ticks and the Save button in line with the
    /// two fields.
    fn refresh_save_state(&mut self)
        ensures
            final(self)@ == old(self)@.settled(),
    {
        let ghost before = self@;
        let saveable: bool = self.build_device().is_some();
        self.name_error = self.name.error();
        self.mac_error = self.mac.error();
        let chosen: Option<String> = self.mac.value();
        let n: usize = self.neighbour_rows.len();
        let ghost middle = self@;
        for i in 0..n
            invariant
                n == self.neighbour_rows@.len(),
                n == before.neighbour_rows.len(),
                text_of(chosen) == before.mac.value(),
                self@ =~= (DevicesView { neighbour_rows: self@.neighbour_rows, ..middle }),
                forall|j: int|
                    0 <= j < i ==> (#[trigger] self@.neighbour_rows[j]) == (NeighbourRowView {
                        picked: before.is_chosen(j),
                        ..before.neighbour_rows[j]
                    }),
                forall|j: int|
                    i <= j < n ==> (#[trigger] self@.neighbour_rows[j]) == before.neighbour_rows[j],
        {
            let ghost prior = self@;
            assert(prior.neighbour_rows[i as int] == self.neighbour_rows@[i as int]@);
            assert(prior.neighbour_rows[i as int] == before.neighbour_rows[i as int]);
            let picked: bool = match &chosen {
                Some(mac) => same_text(self.neighbour_rows[i].mac.as_str(), mac.as_str()),
                None => false,
            };
            let row: &mut NeighbourRow = &mut self.neighbour_rows[i];
            row.picked = picked;
            assert(self@.neighbour_rows =~= prior.neighbour_rows.update(
                i as int,
                NeighbourRowView { picked, ..prior.neighbour_rows[i as int] },
            ));
        }
        self.save_sensitive = !self.saving && saveable;
        assert(self@ =~= before.settled());
    }

    /// Puts `text` into the name field, `verdict` being the book's on the
    /// trimmed text.
    pub fn set_name_text(&mut self, text: &str, verdict: Result<(), String>)
        requires
            old(self)@.well_formed(),
        ensures
            final(self)@ == old(self)@.with_name(text@, verdict),
            final(self)@.well_formed(),
    {
        self.name = parsed_name(text, verdict);
        self.name_text = text.to_owned();
        let ghost before = self@;
        self.refresh_save_state();
        proof {
            settling_settles(before);
        }
    }

    /// Puts `text` into the address field, `read` being what the trimmed text
    /// was read as.
    pub fn set_mac_text(&mut self, text: &str, read: Result<String, String>)
        requires
            old(self)@.well_formed(),
        ensures
            final(self)@ == old(self)@.with_mac(text@, read),
            final(self)@.well_formed(),
    {
        self.mac = parsed_mac(text, read);
        self.mac_text = text.to_owned();
        let ghost before = self@;
        self.refresh_save_state();
        proof {
            settling_settles(before);
        }
    }

    /// Picks row `index`: its MAC goes into the address field, `read` being
    /// what it was read as.
    pub fn activate_neighbour(&mut self, index: usize, read: Result<String, String>)
        requires
            old(self)@.well_formed(),
            index < old(self)@.neighbour_rows.len(),
        ensures
            final(self)@ == old(self)@.with_mac(
                old(self)@.neighbour_rows[index as int].mac,
                read,
            ),
            final(self)@.well_formed(),
    {
        assert(self@.neighbour_rows[index as int] == self.neighbour_rows@[index as int]@);
        let mac: String = self.neighbour_rows[index].mac.clone();
        self.set_mac_text(mac.as_str(), read);
    }

    fn rebuild_saved(&mut self, devices: &[SavedDevice])
        ensures
            final(self)@ == old(self)@.with_saved(views(devices@)),
    {
        let mut rows: Vec<SavedRow> = Vec::new();
        let n: usize = devices.len();
        for i in 0..n
            invariant
                n == devices@.len(),
                rows@.len() == i,
                forall|j: int| 0 <= j < i ==> (#[trigger] rows@[j])@ == saved_row(devices@[j]@),
        {
            let row = SavedRow {
                name: devices[i].name.clone(),
                subtitle: saved_subtitle(&devices[i]),
            };
            assert(row@ =~= saved_row(devices@[i as int]@));
            rows.push(row);
        }
        self.saved_rows = rows;
        self.saved_quiet = n == 0;
        self.saved_trouble.set_showing(false);
        assert(self@ =~= old(self)@.with_saved(views(devices@)));
    }

    /// The saved devices.
    pub fn set_saved(&mut self, devices: &[SavedDevice])
        requires
            old(self)@.well_formed(),
        ensures
            final(self)@ == old(self)@.with_saved(views(devices@)),
            final(self)@.well_formed(),
    {
        self.rebuild_saved(devices);
        assert(self@ =~= self@.settled());
    }

    fn show_saved_unreadable(&mut self, reason: &str)
        ensures
            final(self)@ == old(self)@.with_saved_unreadable(reason@),
    {
        self.saved_rows = Vec::new();
        self.saved_quiet = false;
        self.saved_trouble.set_title(SAVED_TROUBLE_TITLE);
        self.saved_trouble.set_description(reason);
        self.saved_trouble.set_showing(true);
        assert(self@ =~= old(self)@.with_saved_unreadable(reason@));
    }

    /// The book could not be read.
    pub fn set_saved_unreadable(&mut self, reason: &str)
        requires
            old(self)@.well_formed(),
        ensures
            final(self)@ == old(self)@.with_saved_unreadable(reason@),
            final(self)@.well_formed(),
    {
        self.show_saved_unreadable(reason);
        assert(self@ =~= self@.settled());
    }

    fn rebuild_neighbours(&mut self, seen: &[NeighbourChoice])
        ensures
            final(self)@ == old(self)@.with_neighbours(views(seen@)),
    {
        let ghost before = self@;
        let ghost choices = views(seen@);
        let mut rows: Vec<NeighbourRow> = Vec::new();
        let mut named: bool = false;
        let n: usize = seen.len();
        for i in 0..n
            invariant
                n == seen@.len(),
                choices == views(seen@),
                rows@.len() == i,
                forall|j: int|
                    0 <= j < i ==> (#[trigger] rows@[j])@ == (NeighbourRowView {
                        mac: choices[j].mac,
                        subtitle: neighbour_line(choices[j]),
                        picked: false,
                    }),
                named <==> exists|j: int| 0 <= j < i && (#[trigger] choices[j]).name is Some,
        {
            assert(choices[i as int] == seen@[i as int]@);
            rows.push(
                NeighbourRow {
                    mac: seen[i].mac.clone(),
                    subtitle: neighbour_subtitle(&seen[i]),
                    picked: false,
                },
            );
            named = named || seen[i].name.is_some();
        }
        self.neighbour_rows = rows;
        self.neighbours_trouble.set_showing(false);
        self.quiet_shown = n == 0;
        self.list_shown = n > 0;
        self.caption_shown = named;
        assert(self@.neighbour_rows =~= Seq::new(
            choices.len(),
            |i: int|
                NeighbourRowView {
                    mac: choices[i].mac,
                    subtitle: neighbour_line(choices[i]),
                    picked: false,
                },
        ));
        self.refresh_save_state();
        assert(self@ =~= before.with_neighbours(choices));
    }

    /// What the picker offers.
    pub fn set_neighbours(&mut self, seen: &[NeighbourChoice])
        requires
            old(self)@.well_formed(),
        ensures
            final(self)@ == old(self)@.with_neighbours(views(seen@)),
            final(self)@.well_formed(),
    {
        self.rebuild_neighbours(seen);
        assert(self@ =~= self@.settled());
    }

    fn show_neighbours_unavailable(&mut self, reason: &str)
        ensures
            final(self)@ == old(self)@.with_neighbours_unavailable(reason@),
    {
        let ghost before = self@;
        self.neighbour_rows = Vec::new();
        self.list_shown = false;
        self.quiet_shown = false;
        self.caption_shown = false;
        self.neighbours_trouble.set_title(NEIGHBOURS_TROUBLE_TITLE);
        self.neighbours_trouble.set_description(reason);
        self.neighbours_trouble.set_showing(true);
        assert(self@.neighbour_rows =~= Seq::empty());
        self.refresh_save_state();
        assert(self@ =~= before.with_neighbours_unavailable(reason@));
    }

    /// The network could not be listed. A MAC can still be typed.
    pub fn set_neighbours_unavailable(&mut self, reason: &str)
        requires
            old(self)@.well_formed(),
        ensures
            final(self)@ == old(self)@.with_neighbours_unavailable(reason@),
            final(self)@.well_formed(),
    {
        self.show_neighbours_unavailable(reason);
        assert(self@ =~= self@.settled());
    }

    /// What a read brought back, with what it makes of the write it followed,
    /// if it followed one.
    pub fn loaded(&mut self, loaded: &Loaded, announcement: Option<Announcement>)
        requires
            old(self)@.well_formed(),
        ensures
            final(self)@ == (match announcement {
                Some(a) => old(self)@.with_loaded(
                    views_of(loaded.saved),
                    views_of(loaded.seen),
                ).with_note(Some(note_for(views_of(loaded.saved), a.name@, a.replaced))),
                None => old(self)@.with_loaded(views_of(loaded.saved), views_of(loaded.seen)),
            }),
            final(self)@.well_formed(),
    {
        match &loaded.saved {
            Ok(devices) => self.rebuild_saved(devices.as_slice()),
            Err(reason) => self.show_saved_unreadable(reason.as_str()),
        }
        match &loaded.seen {
            Ok(seen) => self.rebuild_neighbours(seen.as_slice()),
            Err(reason) => self.show_neighbours_unavailable(reason.as_str()),
        }
        assert(self@ =~= self@.settled());
        if let Some(a) = announcement {
            let (text, marked): (String, bool) = note_after_write(loaded, &a);
            self.note = Some(text);
            self.note_marked = marked;
            assert(self@ =~= self@.settled());
        }
    }

    /// Presses Save. Answers the device to write, or `None` when there is
    /// none and nothing changes.
    pub fn press_save(&mut self) -> (r: Option<Device>)
        requires
            old(self)@.well_formed(),
        ensures
            match r {
                Some(device) => old(self)@.device() == Some((device.name@, device.address.form()))
                    && device.address is Mac && final(self)@ == old(self)@.saving_begun(),
                None => old(self)@.device() is None && final(self)@ == old(self)@,
            },
            final(self)@.well_formed(),
    {
        let device: Option<Device> = self.build_device();
        if device.is_some() {
            self.saving = true;
            self.refresh_save_state();
            self.note = None;
            self.note_marked = false;
            assert(self@ =~= old(self)@.saving_begun());
            assert(self@ =~= self@.settled());
        }
        device
    }

    /// A write of the device called `name` has ended. Only one that worked
    /// clears what was typed.
    pub fn save_answered(&mut self, name: String, result: SaveResult) -> (r: SaveEffect)
        requires
            old(self)@.well_formed(),
        ensures
            final(self)@ == old(self)@.saving_over(result is Saved),
            final(self)@.well_formed(),
            match result {
                SaveResult::Saved { replaced } => r == SaveEffect::Reload(
                    (Announcement { name, replaced }),
                ),
                SaveResult::Failed(message) => r == SaveEffect::Toast(message),
                SaveResult::Panicked => r matches SaveEffect::Toast(message) && message@
                    == "saving the device panicked"@,
            },
    {
        self.saving = false;
        let effect: SaveEffect = match result {
            SaveResult::Saved { replaced } => {
                self.name_text = String::new();
                self.name = Field::Empty;
                self.mac_text = String::new();
                self.mac = Field::Empty;
                SaveEffect::Reload(Announcement { name, replaced })
            },
            SaveResult::Failed(message) => SaveEffect::Toast(message),
            SaveResult::Panicked => SaveEffect::Toast("saving the device panicked".to_owned()),
        };
        self.refresh_save_state();
        assert(self@ =~= old(self)@.saving_over(result is Saved));
        assert(self@ =~= self@.settled());
        effect
    }

    /// A removal of the device called `name` has ended. Answers the message
    /// to show, and whether the book changed and is to be read again.
    pub fn forget_answered(&mut self, name: &str, result: ForgetResult) -> (r: (String, bool))
        requires
            old(self)@.well_formed(),
        ensures
            r.1 == result is Forgotten,
            final(self)@ == (if result is Forgotten {
                old(self)@.with_note(None)
            } else {
                old(self)@
            }),
            final(self)@.well_formed(),
            match result {
                ForgetResult::Forgotten => r.0@ == "Forgot `"@ + name@ + "`."@,
                ForgetResult::Failed(message) => r.0 == message,
                ForgetResult::Panicked => r.0@ == "forgetting the device panicked"@,
            },
    {
        match result {
            ForgetResult::Forgotten => {
                self.note = None;
                self.note_marked = false;
                assert(self@ =~= old(self)@.with_note(None));
                assert(self@ =~= self@.settled());
                (text3("Forgot `", name, "`."), true)
            },
            ForgetResult::Failed(message) => (message, false),
            ForgetResult::Panicked => ("forgetting the device panicked".to_owned(), false),
        }
    }

    pub fn saved_labels(&self) -> (r: Vec<String>)
        ensures
            texts(r@) == Seq::new(self@.saved_rows.len(), |i: int| self@.saved_rows[i].name),
    {
        let mut r: Vec<String> = Vec::new();
        let n: usize = self.saved_rows.len();
        for i in 0..n
            invariant
                n == self.saved_rows@.len(),
                r@.len() == i,
                forall|j: int| 0 <= j < i ==> (#[trigger] r@[j])@ == self.saved_rows@[j]@.name,
        {
            r.push(self.saved_rows[i].name.clone());
        }
        assert(texts(r@) =~= Seq::new(
            self@.saved_rows.len(),
            |i: int| self@.saved_rows[i].name,
        ));
        r
    }

    pub fn saved_subtitles(&self) -> (r: Vec<String>)
        ensures
            texts(r@) == Seq::new(self@.saved_rows.len(), |i: int| self@.saved_rows[i].subtitle),
    {
        let mut r: Vec<String> = Vec::new();
        let n: usize = self.saved_rows.len();
        for i in 0..n
            invariant
                n == self.saved_rows@.len(),
                r@.len() == i,
                forall|j: int| 0 <= j < i ==> (#[trigger] r@[j])@ == self.saved_rows@[j]@.subtitle,
        {
            r.push(self.saved_rows[i].subtitle.clone());
        }
        assert(texts(r@) =~= Seq::new(
            self@.saved_rows.len(),
            |i: int| self@.saved_rows[i].subtitle,
        ));
        r
    }

    /// The name row `index`'s Forget button is about.
    pub fn forget_button(&self, index: usize) -> (r: Option<String>)
        ensures
            text_of(r) == (if index < self@.saved_rows.len() {
                Some(self@.saved_rows[index as int].name)
            } else {
                None
            }),
    {
        if index < self.saved_rows.len() {
            assert(self@.saved_rows[index as int] == self.saved_rows@[index as int]@);
            Some(self.saved_rows[index].name.clone())
        } else {
            None
        }
    }

    /// The quiet line that stands in for the saved devices, while it does.
    pub fn saved_quiet(&self) -> (r: Option<QuietNote>)
        ensures
            r is Some <==> self@.saved_quiet,
            r matches Some(note) ==> note@ == NO_DEVICES_NOTE@,
    {
        if self.saved_quiet {
            Some(quiet_note(NO_DEVICES_NOTE))
        } else {
            None
        }
    }

    /// The failure that stands in for the saved devices, while it does.
    pub fn saved_trouble(&self) -> (r: Option<TroubleNote>)
        ensures
            r is Some <==> self@.saved_trouble.showing,
            r matches Some(note) ==> note@ == self@.saved_trouble,
    {
        if self.saved_trouble.is_showing() {
            Some(self.saved_trouble.clone())
        } else {
            None
        }
    }

    pub fn neighbour_labels(&self) -> (r: Vec<String>)
        ensures
            texts(r@) == Seq::new(self@.neighbour_rows.len(), |i: int| self@.neighbour_rows[i].mac),
    {
        let mut r: Vec<String> = Vec::new();
        let n: usize = self.neighbour_rows.len();
        for i in 0..n
            invariant
                n == self.neighbour_rows@.len(),
                r@.len() == i,
                forall|j: int| 0 <= j < i ==> (#[trigger] r@[j])@ == self.neighbour_rows@[j]@.mac,
        {
            r.push(self.neighbour_rows[i].mac.clone());
        }
        assert(texts(r@) =~= Seq::new(
            self@.neighbour_rows.len(),
            |i: int| self@.neighbour_rows[i].mac,
        ));
        r
    }

    pub fn neighbour_subtitles(&self) -> (r: Vec<String>)
        ensures
            texts(r@) == Seq::new(
                self@.neighbour_rows.len(),
                |i: int| self@.neighbour_rows[i].subtitle,
            ),
    {
        let mut r: Vec<String> = Vec::new();
        let n: usize = self.neighbour_rows.len();
        for i in 0..n
            invariant
                n == self.neighbour_rows@.len(),
                r@.len() == i,
                forall|j: int|
                    0 <= j < i ==> (#[trigger] r@[j])@ == self.neighbour_rows@[j]@.subtitle,
        {
            r.push(self.neighbour_rows[i].subtitle.clone());
        }
        assert(texts(r@) =~= Seq::new(
            self@.neighbour_rows.len(),
            |i: int| self@.neighbour_rows[i].subtitle,
        ));
        r
    }

    /// Whether row `index` carries the tick.
    pub fn neighbour_is_picked(&self, index: usize) -> (r: bool)
        ensures
            r == (index < self@.neighbour_rows.len() && self@.neighbour_rows[index as int].picked),
    {
        if index < self.neighbour_rows.len() {
            assert(self@.neighbour_rows[index as int] == self.neighbour_rows@[index as int]@);
            self.neighbour_rows[index].picked
        } else {
            false
        }
    }

    pub fn names_caption_is_showing(&self) -> (r: bool)
        ensures
            r == self@.caption_shown,
    {
        self.caption_shown
    }

    pub fn neighbours_quiet_is_showing(&self) -> (r: bool)
        ensures
            r == self@.quiet_shown,
    {
        self.quiet_shown
    }

    /// The picker's failure, while it is showing: its title and the reason.
    pub fn neighbours_trouble(&self) -> (r: Option<(String, String)>)
        ensures
            match r {
                Some((title, reason)) => self@.neighbours_trouble == (TroubleView {
                    title: title@,
                    description: reason@,
                    showing: true,
                }),
                None => !self@.neighbours_trouble.showing,
            },
    {
        if !self.neighbours_trouble.is_showing() {
            return None;
        }
        let description: String = match self.neighbours_trouble.description() {
            Some(text) => text,
            None => String::new(),
        };
        Some((self.neighbours_trouble.title(), description))
    }

    pub fn name_text(&self) -> (r: String)
        ensures
            r@ == self@.name_text,
    {
        self.name_text.clone()
    }

    pub fn mac_text(&self) -> (r: String)
        ensures
            r@ == self@.mac_text,
    {
        self.mac_text.clone()
    }

    /// The name field's refusal as it reads on screen.
    pub fn name_error(&self) -> (r: Option<String>)
        ensures
            text_of(r) == self@.name_error,
    {
        copy_text(&self.name_error)
    }

    pub fn mac_error(&self) -> (r: Option<String>)
        ensures
            text_of(r) == self@.mac_error,
    {
        copy_text(&self.mac_error)
    }

    /// What the last write said.
    pub fn note(&self) -> (r: Option<String>)
        ensures
            text_of(r) == self@.note,
    {
        copy_text(&self.note)
    }

    pub fn note_is_marked(&self) -> (r: bool)
        ensures
            r == self@.note_marked,
    {
        self.note_marked
    }

    pub fn can_save(&self) -> (r: bool)
        ensures
            r == self@.save_sensitive,
            self@.well_formed() ==> r == (!self@.saving && self@.device() is Some),
    {
        self.save_sensitive
    }
}

impl Default for DevicesDialog {
    fn default() -> (r: Self)
        ensures
            r@ == DevicesView::fresh(),
    {
        Self::new()
    }
}

/// A book that could not be read is never shown as an empty one, nor a
/// network that could not be listed as one with nothing on it.
pub proof fn unreadable_is_not_empty(v: DevicesView, reason: Seq<char>)
    ensures
        v.with_saved_unreadable(reason).saved_trouble.showing,
        v.with_saved_unreadable(reason).saved_trouble.description == reason,
        !v.with_saved_unreadable(reason).saved_quiet,
        v.with_saved(Seq::empty()).saved_quiet,
        !v.with_saved(Seq::empty()).saved_trouble.showing,
        v.with_neighbours_unavailable(reason).neighbours_trouble.showing,
        v.with_neighbours_unavailable(reason).neighbours_trouble.description == reason,
        !v.with_neighbours_unavailable(reason).quiet_shown,
        v.with_neighbours(Seq::empty()).quiet_shown,
        !v.with_neighbours(Seq::empty()).neighbours_trouble.showing,
{
}

/// One of the two reads failing takes nothing from the other.
pub proof fn each_read_stands_for_itself(
    v: DevicesView,
    devices: Seq<SavedView>,
    seen: Seq<ChoiceView>,
    reason: Seq<char>,
)
    ensures
        v.with_loaded(Ok(devices), Err(reason)).saved_rows == v.with_loaded(
            Ok(devices),
            Ok(seen),
        ).saved_rows,
        v.with_loaded(Err(reason), Ok(seen)).neighbour_rows == v.with_loaded(
            Ok(devices),
            Ok(seen),
        ).neighbour_rows,
{
}

/// While a write is outstanding the Save button cannot be pressed, whatever
/// is typed meanwhile; a write that failed leaves what was typed where it
/// was.
pub proof fn a_save_is_not_sent_twice(
    v: DevicesView,
    text: Seq<char>,
    verdict: Result<(), String>,
    read: Result<String, String>,
)
    requires
        v.well_formed(),
    ensures
        !v.saving_begun().save_sensitive,
        !v.saving_begun().with_name(text, verdict).save_sensitive,
        !v.saving_begun().with_mac(text, read).save_sensitive,
        v.saving_begun().saving_over(false).name_text == v.name_text,
        v.saving_begun().saving_over(false).mac_text == v.mac_text,
        v.saving_begun().saving_over(false).device() == v.device(),
        v.saving_begun().saving_over(true).device() is None,
{
}

/// Picking a row marks it, where its address is read as itself, and the
/// address is what a save would write.
pub proof fn picking_a_row_fills_the_field(v: DevicesView, index: int, mac: String)
    requires
        v.well_formed(),
        0 <= index < v.neighbour_rows.len(),
        mac@ == v.neighbour_rows[index].mac,
        trimmed(mac@).len() > 0,
    ensures
        v.with_mac(mac@, Ok(mac)).neighbour_rows[index].picked,
        v.with_mac(mac@, Ok(mac)).mac_text == v.neighbour_rows[index].mac,
        v.with_mac(mac@, Ok(mac)).device() == (match v.name.value() {
            Some(name) => Some((name, mac@)),
            None => None,
        }),
{
}

/// A picker row gives the device's own address and the interface it was seen
/// on, behind the resolver's name for it where there is one.
pub proof fn a_picker_row_says_where_the_device_was_seen(choice: ChoiceView)
    ensures
        (dotted(choice.address) + " on "@ + choice.interface).is_suffix_of(neighbour_line(choice)),
        choice.name is None ==> neighbour_line(choice) == dotted(choice.address) + " on "@
            + choice.interface,
        choice.name matches Some(name) ==> (name + " · "@).is_prefix_of(neighbour_line(choice))
            && neighbour_line(choice).len() == name.len() + " · "@.len() + dotted(
            choice.address,
        ).len() + " on "@.len() + choice.interface.len(),
{
    let seen = dotted(choice.address) + " on "@ + choice.interface;
    let line = neighbour_line(choice);
    if let Some(name) = choice.name {
        assert(line =~= name + " · "@ + seen);
        assert(name + " · "@ =~= line.subrange(0, (name + " · "@).len() as int));
    }
    assert(seen =~= line.subrange(line.len() - seen.len(), line.len() as int));
}

/// A saved device's row gives the address the book records and what it
/// resolves to, or, word for word, why it does not resolve.
pub proof fn a_saved_row_says_what_it_resolves_to(device: SavedView)
    ensures
        saved_row(device).name == device.name,
        device.resolved matches Ok(addr) ==> saved_row(device).subtitle == device.address
            + " · resolves to "@ + dotted(addr) + " right now"@,
        device.resolved matches Err(reason) ==> saved_row(device).subtitle == reason,
{
}

/// A name field that is all white space is neither right nor wrong; otherwise
/// it is the trimmed text where the book takes it, and the refusal word for
/// word where it does not.
pub proof fn a_name_is_what_was_typed(text: Seq<char>, verdict: Result<(), String>)
    ensures
        name_read(text, verdict) is Empty <==> forall|i: int|
            0 <= i < text.len() ==> is_white_space(#[trigger] text[i]),
        !(name_read(text, verdict) is Empty) ==> (match verdict {
            Ok(_) => name_read(text, verdict) == FieldView::Valid(trimmed(text)),
            Err(message) => name_read(text, verdict) == FieldView::Invalid(message@),
        }),
{
    trimming_to_nothing(text);
}

/// An address field that is all white space is neither right nor wrong;
/// otherwise it holds what its text was read as.
pub proof fn an_address_is_what_was_read(text: Seq<char>, read: Result<String, String>)
    ensures
        mac_read(text, read) is Empty <==> forall|i: int|
            0 <= i < text.len() ==> is_white_space(#[trigger] text[i]),
        !(mac_read(text, read) is Empty) ==> (match read {
            Ok(mac) => mac_read(text, read) == FieldView::Valid(mac@),
            Err(message) => mac_read(text, read) == FieldView::Invalid(message@),
        }),
{
    trimming_to_nothing(text);
}

/// A field has a refusal to show exactly when it was refused, and a value to
/// save exactly when it was taken.
pub proof fn a_field_is_refused_or_taken(field: FieldView, text: Seq<char>)
    ensures
        field.error() == Some(text) <==> field == FieldView::Invalid(text),
        field.value() == Some(text) <==> field == FieldView::Valid(text),
        field.error() is None <==> !(field is Invalid),
        field.value() is None <==> !(field is Valid),
{
}

/// Looking a name up finds the first device of that name, and nothing exactly
/// where there is none.
pub proof fn the_first_of_a_name_is_found(saved: Seq<SavedView>, name: Seq<char>, i: int)
    ensures
        saved_named(saved, name) is None <==> forall|j: int|
            0 <= j < saved.len() ==> (#[trigger] saved[j]).name != name,
        0 <= i < saved.len() && saved[i].name == name && (forall|j: int|
            0 <= j < i ==> (#[trigger] saved[j]).name != name) ==> saved_named(saved, name) == Some(
            saved[i],
        ),
    decreases saved.len(),
{
    if saved.len() > 0 {
        let rest = saved.drop_first();
        the_first_of_a_name_is_found(rest, name, i - 1);
        if saved[0].name != name {
            if saved_named(saved, name) is None {
                assert forall|j: int| 0 <= j < saved.len() implies (#[trigger] saved[j]).name
                    != name by {
                    if j > 0 {
                        assert(rest[j - 1] == saved[j]);
                    }
                }
            } else {
                let j = choose|j: int| 0 <= j < rest.len() && (#[trigger] rest[j]).name == name;
                assert(saved[j + 1] == rest[j]);
            }
            if 0 <= i < saved.len() && saved[i].name == name && (forall|j: int|
                0 <= j < i ==> (#[trigger] saved[j]).name != name) {
                assert(rest[i - 1] == saved[i]);
                assert forall|j: int| 0 <= j < i - 1 implies (#[trigger] rest[j]).name != name by {
                    assert(saved[j + 1] == rest[j]);
                }
            }
        }
    }
}

/// What is said after a write begins with which of the two things happened.
/// It goes on with what the freshly read book makes of the device: where it
/// resolves to, or why it does not, which alone is marked. Where the book
/// does not name it, or could not be read, only the name is said.
pub proof fn a_note_says_what_the_write_did(
    saved: Result<Seq<SavedView>, Seq<char>>,
    name: Seq<char>,
    replaced: bool,
    i: int,
)
    ensures
        ({
            let (note, marked) = note_for(saved, name, replaced);
            let verb = if replaced {
                "Replaced"@
            } else {
                "Saved"@
            };
            &&& verb.is_prefix_of(note)
            &&& saved matches Ok(devices) ==> 0 <= i < devices.len() && devices[i].name == name && (
            forall|j: int| 0 <= j < i ==> (#[trigger] devices[j]).name != name) ==> (
            match devices[i].resolved {
                Ok(addr) => note.skip(verb.len() as int) == " — `"@ + name + "` resolves to "@
                    + dotted(addr) + " right now"@ && !marked,
                Err(reason) => note.skip(verb.len() as int) == " — "@ + reason && marked,
            })
            &&& (saved matches Ok(devices) ==> forall|j: int|
                0 <= j < devices.len() ==> (#[trigger] devices[j]).name != name) ==> note.skip(
                verb.len() as int,
            ) == " `"@ + name + "`"@ && !marked
        }),
{
    let verb = if replaced {
        "Replaced"@
    } else {
        "Saved"@
    };
    let note = note_for(saved, name, replaced).0;
    assert(verb =~= note.subrange(0, verb.len() as int));
    if let Ok(devices) = saved {
        the_first_of_a_name_is_found(devices, name, i);
    }
    let row = match saved {
        Ok(devices) => saved_named(devices, name),
        Err(_) => None,
    };
    let rest = match row {
        Some(device) => match device.resolved {
            Ok(addr) => " — `"@ + name + "` resolves to "@ + dotted(addr) + " right now"@,
            Err(reason) => " — "@ + reason,
        },
        None => " `"@ + name + "`"@,
    };
    assert(note =~= verb + rest);
    assert(note.skip(verb.len() as int) =~= rest);
}

/// The question before forgetting names the device, and only its second
/// answer forgets; that one is marked as destructive.
pub proof fn the_question_names_the_device(name: Seq<char>)
    ensures
        ("`"@ + name + "`"@).is_prefix_of(forget_question(name).body),
        forget_question(name).body.skip(name.len() as int + 2)
            == " stops being offered as a target. Nothing that is currently open changes."@,
        forget_question(name).heading == "Forget this device?"@,
        forget_question(name).first.id == "cancel"@,
        forget_question(name).second.id == "forget"@,
        forget_question(name).close_response == forget_question(name).first.id,
        forget_question(name).default_response == forget_question(name).first.id,
        forget_question(name).first.label == "Cancel"@,
        forget_question(name).second.label == "Forget"@,
        forget_question(name).second.appearance == Appearance::Destructive,
        forget_question(name).first.appearance == Appearance::Default,
{
    reveal_strlit("`");
    reveal_strlit("` stops being offered as a target. Nothing that is currently open changes.");
    reveal_strlit(" stops being offered as a target. Nothing that is currently open changes.");
    let body = forget_question(name).body;
    assert(body.skip(name.len() as int + 2)
        =~= " stops being offered as a target. Nothing that is currently open changes."@);
    assert("`"@ + name + "`"@ =~= body.subrange(0, ("`"@ + name + "`"@).len() as int));
}

/// The Save button can be pressed exactly when no write is outstanding and
/// both fields were taken; each field's refusal is its own; and a picker row
/// is ticked exactly when its MAC is what the address field was taken as.
pub proof fn the_form_follows_its_fields(v: DevicesView, i: int)
    ensures
        ({
            let w = v.settled();
            &&& w.save_sensitive <==> !v.saving && v.name is Valid && v.mac is Valid
            &&& v.name matches FieldView::Invalid(message) ==> w.name_error == Some(message)
            &&& !(v.name is Invalid) ==> w.name_error is None
            &&& v.mac matches FieldView::Invalid(message) ==> w.mac_error == Some(message)
            &&& !(v.mac is Invalid) ==> w.mac_error is None
            &&& w.neighbour_rows.len() == v.neighbour_rows.len()
            &&& 0 <= i < v.neighbour_rows.len() ==> {
                &&& w.neighbour_rows[i].picked <==> v.mac == FieldView::Valid(
                    v.neighbour_rows[i].mac,
                )
                &&& w.neighbour_rows[i].mac == v.neighbour_rows[i].mac
                &&& w.neighbour_rows[i].subtitle == v.neighbour_rows[i].subtitle
            }
            &&& w == (DevicesView {
                name_error: w.name_error,
                mac_error: w.mac_error,
                neighbour_rows: w.neighbour_rows,
                save_sensitive: w.save_sensitive,
                ..v
            })
        }),
{
}

/// A save writes the name and the address the two fields were taken as, and
/// there is one to write exactly when both were.
pub proof fn a_save_writes_the_two_fields(v: DevicesView, name: Seq<char>, mac: Seq<char>)
    ensures
        v.device() == Some((name, mac)) <==> v.name == FieldView::Valid(name) && v.mac
            == FieldView::Valid(mac),
        v.device() is Some <==> v.name is Valid && v.mac is Valid,
{
}

/// Typing into one field leaves the other, and the form follows both. Each
/// text stays on screen as it was typed.
pub proof fn each_field_is_typed_on_its_own(
    v: DevicesView,
    text: Seq<char>,
    verdict: Result<(), String>,
    read: Result<String, String>,
)
    ensures
        v.with_name(text, verdict) == (DevicesView {
            name_text: text,
            name: name_read(text, verdict),
            ..v
        }).settled(),
        v.with_mac(text, read) == (DevicesView {
            mac_text: text,
            mac: mac_read(text, read),
            ..v
        }).settled(),
        v.with_name(text, verdict).name_text == text,
        v.with_name(text, verdict).name == name_read(text, verdict),
        v.with_name(text, verdict).mac == v.mac,
        v.with_name(text, verdict).mac_text == v.mac_text,
        v.with_name(text, verdict).save_sensitive <==> !v.saving && v.with_name(
            text,
            verdict,
        ).name is Valid && v.mac is Valid,
        v.with_mac(text, read).mac_text == text,
        v.with_mac(text, read).mac == mac_read(text, read),
        v.with_mac(text, read).name == v.name,
        v.with_mac(text, read).name_text == v.name_text,
        v.with_mac(text, read).save_sensitive <==> !v.saving && v.name is Valid && v.with_mac(
            text,
            read,
        ).mac is Valid,
{
}

/// The picker lists every device that was seen, in order, each under its own
/// MAC; it explains names exactly where a row has one; and it is quiet
/// exactly where nothing was seen. The book lists every saved device, in
/// order.
pub proof fn every_device_has_a_row(
    v: DevicesView,
    seen: Seq<ChoiceView>,
    devices: Seq<SavedView>,
    reason: Seq<char>,
    i: int,
)
    ensures
        ({
            let w = v.with_neighbours(seen);
            &&& w.neighbour_rows.len() == seen.len()
            &&& 0 <= i < seen.len() ==> w.neighbour_rows[i].mac == seen[i].mac
                && w.neighbour_rows[i].subtitle == neighbour_line(seen[i]) && (
            w.neighbour_rows[i].picked <==> v.mac == FieldView::Valid(seen[i].mac))
            &&& w.list_shown <==> seen.len() > 0
            &&& w.quiet_shown <==> seen.len() == 0
            &&& w.caption_shown <==> exists|j: int|
                0 <= j < seen.len() && (#[trigger] seen[j]).name is Some
            &&& !w.neighbours_trouble.showing
            &&& w == (DevicesView {
                neighbour_rows: w.neighbour_rows,
                list_shown: w.list_shown,
                quiet_shown: w.quiet_shown,
                caption_shown: w.caption_shown,
                neighbours_trouble: w.neighbours_trouble,
                ..v
            }).settled()
        }),
        ({
            let w = v.with_neighbours_unavailable(reason);
            &&& w.neighbour_rows.len() == 0 && !w.list_shown && !w.quiet_shown && !w.caption_shown
            &&& w.neighbours_trouble.showing && w.neighbours_trouble.description == reason
            &&& w.neighbours_trouble.title == "Could not list this network"@
            &&& w == (DevicesView {
                neighbour_rows: Seq::empty(),
                list_shown: false,
                quiet_shown: false,
                caption_shown: false,
                neighbours_trouble: w.neighbours_trouble,
                ..v
            }).settled()
        }),
        ({
            let w = v.with_saved(devices);
            &&& w.saved_rows.len() == devices.len()
            &&& 0 <= i < devices.len() ==> w.saved_rows[i] == saved_row(devices[i])
            &&& w.saved_quiet <==> devices.len() == 0
            &&& !w.saved_trouble.showing
            &&& w == (DevicesView {
                saved_rows: w.saved_rows,
                saved_quiet: w.saved_quiet,
                saved_trouble: w.saved_trouble,
                ..v
            })
        }),
        ({
            let w = v.with_saved_unreadable(reason);
            &&& w.saved_rows.len() == 0 && !w.saved_quiet
            &&& w.saved_trouble.showing && w.saved_trouble.description == reason
            &&& w.saved_trouble.title == "Could not read the saved devices"@
            &&& w == (DevicesView {
                saved_rows: w.saved_rows,
                saved_quiet: w.saved_quiet,
                saved_trouble: w.saved_trouble,
                ..v
            })
        }),
{
}

/// What was read of the book and of the network each reaches its own part of
/// the dialog, whatever came of the other.
pub proof fn a_read_reaches_both_lists(
    v: DevicesView,
    saved: Result<Seq<SavedView>, Seq<char>>,
    seen: Result<Seq<ChoiceView>, Seq<char>>,
)
    ensures
        ({
            let w = v.with_loaded(saved, seen);
            &&& saved matches Ok(devices) ==> w.saved_rows.len() == devices.len() && (
            w.saved_quiet <==> devices.len() == 0) && !w.saved_trouble.showing && forall|i: int|
                0 <= i < devices.len() ==> #[trigger] w.saved_rows[i] == saved_row(devices[i])
            &&& saved matches Err(reason) ==> w.saved_rows.len() == 0 && !w.saved_quiet
                && w.saved_trouble.showing && w.saved_trouble.description == reason
            &&& seen matches Ok(choices) ==> w.neighbour_rows.len() == choices.len() && (
            w.quiet_shown <==> choices.len() == 0) && !w.neighbours_trouble.showing && forall|
                i: int,
            |
                0 <= i < choices.len() ==> (#[trigger] w.neighbour_rows[i]).mac == choices[i].mac
                    && w.neighbour_rows[i].subtitle == neighbour_line(choices[i])
            &&& seen matches Err(reason) ==> w.neighbour_rows.len() == 0 && !w.quiet_shown
                && w.neighbours_trouble.showing && w.neighbours_trouble.description == reason
            &&& w.name == v.name && w.mac == v.mac && w.note == v.note && w.saving == v.saving
            &&& w.name_text == v.name_text && w.mac_text == v.mac_text && w.note_marked
                == v.note_marked
        }),
{
}

/// A write takes the last note off and holds the button; one that worked
/// empties both fields, one that failed leaves both, and either gives the
/// button back to the fields. A note is shown as it was worded, marked or
/// not.
pub proof fn a_write_holds_the_button_until_it_ends(
    v: DevicesView,
    worked: bool,
    text: Seq<char>,
    marked: bool,
)
    ensures
        ({
            let w = v.saving_begun();
            &&& w.saving && !w.save_sensitive && w.note is None && !w.note_marked
            &&& w.name == v.name && w.mac == v.mac && w.name_text == v.name_text && w.mac_text
                == v.mac_text && w.saved_rows == v.saved_rows
        }),
        ({
            let w = v.saving_over(worked);
            &&& !w.saving
            &&& worked ==> w.name is Empty && w.mac is Empty && w.name_text.len() == 0
                && w.mac_text.len() == 0 && !w.save_sensitive
            &&& !worked ==> w.name == v.name && w.mac == v.mac && w.name_text == v.name_text
                && w.mac_text == v.mac_text && (w.save_sensitive <==> v.name is Valid && v.mac
                is Valid)
            &&& w.note == v.note && w.saved_rows == v.saved_rows
        }),
        v.with_note(Some((text, marked))).note == Some(text),
        v.with_note(Some((text, marked))).note_marked == marked,
        v.with_note(None).note is None,
        !v.with_note(None).note_marked,
        v.with_note(None) == (DevicesView { note: None, note_marked: false, ..v }),
        v.with_note(Some((text, marked))) == (DevicesView {
            note: Some(text),
            note_marked: marked,
            ..v
        }),
        v.saving_begun() == (DevicesView {
            saving: true,
            note: None,
            note_marked: false,
            ..v
        }).settled(),
        !worked ==> v.saving_over(worked) == (DevicesView { saving: false, ..v }).settled(),
{
}

/// A new dialog has nothing typed, nothing listed and nothing to save.
pub proof fn a_new_dialog_has_nothing_to_save()
    ensures
        ({
            let v = DevicesView::fresh();
            &&& v.name is Empty && v.mac is Empty && v.name_text.len() == 0 && v.mac_text.len()
                == 0
            &&& v.name_error is None && v.mac_error is None && v.note is None
            &&& !v.save_sensitive && !v.saving && v.device() is None
            &&& v.neighbour_rows.len() == 0 && v.saved_rows.len() == 0
            &&& v.saved_quiet && !v.saved_trouble.showing && !v.neighbours_trouble.showing
            &&& !v.list_shown && !v.quiet_shown && !v.caption_shown
        }),
{
}

/// A list is looked at as it was read: every item in its place, or the reason
/// there are none.
pub proof fn a_read_list_is_looked_at_whole<T: View>(list: Result<Vec<T>, String>)
    ensures
        list matches Ok(items) ==> (views_of(list) matches Ok(seen) && seen.len() == items@.len()
            && forall|i: int| 0 <= i < items@.len() ==> #[trigger] seen[i] == items@[i]@),
        list matches Err(reason) ==> views_of(list) == Err::<Seq<T::V>, Seq<char>>(reason@),
{
}

/// Looking at a field, a device or an address shows what it holds.
pub proof fn what_is_looked_at_is_what_is_held(
    field: Field,
    saved: SavedDevice,
    choice: NeighbourChoice,
    address: DeviceAddress,
)
    ensures
        field is Empty <==> field@ is Empty,
        field matches Field::Invalid(message) ==> field@ == FieldView::Invalid(message@),
        field matches Field::Valid(value) ==> field@ == FieldView::Valid(value@),
        saved@.name == saved.name@,
        saved@.address == saved.address@,
        saved.resolved matches Ok(addr) ==> saved@.resolved == Ok::<Ipv4Addr, Seq<char>>(addr),
        saved.resolved matches Err(reason) ==> saved@.resolved == Err::<Ipv4Addr, Seq<char>>(
            reason@,
        ),
        choice@.mac == choice.mac@,
        choice@.address == choice.address,
        choice@.interface == choice.interface@,
        choice.name matches Some(name) ==> choice@.name == Some(name@),
        choice.name is None ==> choice@.name is None,
        address matches DeviceAddress::Mac(mac) ==> address.form() == mac@,
        address matches DeviceAddress::Host(host) ==> address.form() == host@,
{
}

/// The two quiet lines say two different things: that nothing is saved, and
/// that nothing has been seen.
pub proof fn nothing_saved_is_not_nothing_seen()
    ensures
        "No devices saved yet."@.is_prefix_of(NO_DEVICES_NOTE@),
        "Nothing has been seen on this network yet."@.is_prefix_of(NOTHING_SEEN_NOTE@),
{
    reveal_strlit("No devices saved yet.");
    reveal_strlit("Nothing has been seen on this network yet.");
    reveal_strlit(
        "No devices saved yet. Save one above and it becomes a target in the open dialog.",
    );
    reveal_strlit(
        "Nothing has been seen on this network yet. A device that is switched off will \
     not appear here; its MAC address can still be typed above.",
    );
    assert("No devices saved yet."@ =~= NO_DEVICES_NOTE@.subrange(0, 21));
    assert("Nothing has been seen on this network yet."@ =~= NOTHING_SEEN_NOTE@.subrange(0, 42));
}

} // verus!
