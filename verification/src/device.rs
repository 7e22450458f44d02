//! Finding the iPhone to install on.
//!
//! Three cases are told apart, because the user can mend each: nothing plugged in,
//! something seen over Wi-Fi only, several phones at once.

use crate::failure::{explain_error, explained, Failure, FailureView};
use crate::notice::{notices, silence, NoticeView};
use crate::text::{opt_string, texts};
use crate::turn::{text_result, Turn, TurnView};
use vstd::prelude::*;
use vstd::string::StringExecFns;
use vstd::utf8::{
    decode_utf8, encode_utf8, encode_utf8_decode_utf8, is_ascii_chars, is_ascii_chars_encode_utf8,
    is_char_boundary,
};

verus! {

pub const SERVICE_SILENT: &'static str = "Le service Apple ne repond plus";

pub const SERVICE_SILENT_STEPS: [&'static str; 2] = [
    "Redemarre le PC, puis relance l'application.",
    "Si le probleme persiste, reinstalle « Apple Devices » depuis le Microsoft Store.",
];

pub const LIST_FAILED: &'static str = "Impossible de lister les appareils Apple";

pub const LIST_FAILED_STEPS: [&'static str; 2] = [
    "Debranche puis rebranche l'iPhone.",
    "Redemarre le PC si le probleme persiste.",
];

pub const NO_DEVICE: &'static str = "Aucun iPhone n'est branche en USB";

pub const NO_DEVICE_STEPS: [&'static str; 6] = [
    "Branche l'iPhone au PC avec un cable USB.",
    "Utilise un cable de donnees : beaucoup de cables ne servent qu'a charger.",
    "Branche-le sur un port USB du PC directement, sans hub ni station d'accueil.",
    "Deverrouille l'iPhone et laisse l'ecran allume.",
    "Quand l'iPhone demande « Se fier a cet ordinateur ? », touche « Se fier » et saisis ton code.",
    "Si rien ne se passe : debranche, rebranche, attends 5 secondes, puis relance.",
];

pub const WIFI_ONLY: &'static str = "L'iPhone est vu en Wi-Fi, pas en USB";

pub const WIFI_ONLY_STEPS: [&'static str; 3] = [
    "L'installation exige une liaison USB : le Wi-Fi ne suffit pas.",
    "Branche l'iPhone avec un cable de donnees, directement sur le PC.",
    "Deverrouille l'iPhone, puis relance l'installation.",
];

pub const CHOICE_CANCELLED: &'static str = "Choix de l'appareil annule";

pub const UNPLUGGED: &'static str = "L'iPhone choisi n'est plus branche";

pub const UNPLUGGED_STEPS: [&'static str; 1] = [
    "Rebranche l'iPhone et relance l'installation.",
];

pub const LABEL_HEAD: &'static str = "Appareil ...";

/// How many bytes of an identifier stand in a label.
pub const LABEL_BYTES: usize = 8;

/// A device that the Apple service sees, over USB or otherwise.
#[derive(Debug)]
pub struct AttachedDevice {
    pub udid: String,
    pub usb: bool,
}

pub struct AttachedDeviceView {
    pub udid: Seq<char>,
    pub usb: bool,
}

impl View for AttachedDevice {
    type V = AttachedDeviceView;

    open spec fn view(&self) -> AttachedDeviceView {
        AttachedDeviceView { udid: self.udid@, usb: self.usb }
    }
}

pub open spec fn devices(list: Seq<AttachedDevice>) -> Seq<AttachedDeviceView> {
    list.map_values(|d: AttachedDevice| d@)
}

/// A device that the user can pick. The Apple service knows no readable name, so the end
/// of the identifier has to do.
#[derive(Debug)]
pub struct DeviceOption {
    pub name: String,
    pub udid: String,
    pub usb: bool,
}

pub struct DeviceOptionView {
    pub name: Seq<char>,
    pub udid: Seq<char>,
    pub usb: bool,
}

impl View for DeviceOption {
    type V = DeviceOptionView;

    open spec fn view(&self) -> DeviceOptionView {
        DeviceOptionView { name: self.name@, udid: self.udid@, usb: self.usb }
    }
}

pub open spec fn options(list: Seq<DeviceOption>) -> Seq<DeviceOptionView> {
    list.map_values(|d: DeviceOption| d@)
}

/// Where the last bytes of an identifier begin.
pub open spec fn label_start(udid: Seq<char>) -> int {
    let n = encode_utf8(udid).len() as int;
    if n >= LABEL_BYTES {
        n - LABEL_BYTES
    } else {
        0
    }
}

/// The last bytes of an identifier can be cut off: no character straddles the cut. This
/// is so of every identifier in ASCII.
pub open spec fn has_label(udid: Seq<char>) -> bool {
    is_char_boundary(encode_utf8(udid), label_start(udid))
}

/// The last bytes of an identifier, as text.
pub open spec fn label_tail(udid: Seq<char>) -> Seq<char> {
    let bytes = encode_utf8(udid);
    decode_utf8(bytes.subrange(label_start(udid), bytes.len() as int))
}

/// How a device is offered to the user.
pub open spec fn offer(device: AttachedDeviceView) -> DeviceOptionView {
    DeviceOptionView {
        name: LABEL_HEAD@ + label_tail(device.udid),
        udid: device.udid,
        usb: true,
    }
}

/// The devices plugged in by USB.
pub open spec fn on_usb(list: Seq<AttachedDeviceView>) -> Seq<AttachedDeviceView> {
    list.filter(|d: AttachedDeviceView| d.usb)
}

pub open spec fn offers(list: Seq<AttachedDeviceView>) -> Seq<DeviceOptionView> {
    list.map_values(|d: AttachedDeviceView| offer(d))
}

/// The place of the first device plugged in by USB with an identifier, from `from` on. A
/// phone may be seen over Wi-Fi too, but nothing can be installed that way.
pub open spec fn place_of(list: Seq<AttachedDeviceView>, udid: Seq<char>, from: int) -> Option<int>
    decreases list.len() - from,
{
    if from < 0 || from >= list.len() {
        None
    } else if list[from].usb && list[from].udid == udid {
        Some(from)
    } else {
        place_of(list, udid, from + 1)
    }
}

#[derive(Debug)]
pub enum FindState {
    Start,
    /// The Apple service was called.
    Calling,
    Listing,
    /// The user picks one of several phones.
    Choosing { seen: Vec<AttachedDevice> },
    Finished,
}

pub enum FindStateView {
    Start,
    Calling,
    Listing,
    Choosing { seen: Seq<AttachedDeviceView> },
    Finished,
}

impl View for FindState {
    type V = FindStateView;

    open spec fn view(&self) -> FindStateView {
        match self {
            FindState::Start => FindStateView::Start,
            FindState::Calling => FindStateView::Calling,
            FindState::Listing => FindStateView::Listing,
            FindState::Choosing { seen } => FindStateView::Choosing { seen: devices(seen@) },
            FindState::Finished => FindStateView::Finished,
        }
    }
}

#[derive(Debug)]
pub enum FindEvent {
    Begin,
    Called(Result<(), String>),
    Listed(Result<Vec<AttachedDevice>, String>),
    /// The user picked an identifier, or closed the question without an answer.
    Chosen(Option<String>),
}

pub enum FindEventView {
    Begin,
    Called(Result<(), Seq<char>>),
    Listed(Result<Seq<AttachedDeviceView>, Seq<char>>),
    Chosen(Option<Seq<char>>),
}

impl View for FindEvent {
    type V = FindEventView;

    open spec fn view(&self) -> FindEventView {
        match self {
            FindEvent::Begin => FindEventView::Begin,
            FindEvent::Called(r) => FindEventView::Called(text_result(*r)),
            FindEvent::Listed(r) => FindEventView::Listed(
                match r {
                    Ok(list) => Ok(devices(list@)),
                    Err(e) => Err(e@),
                },
            ),
            FindEvent::Chosen(c) => FindEventView::Chosen(opt_string(*c)),
        }
    }
}

#[derive(Debug)]
pub enum FindAction {
    /// Call the Apple service.
    Call,
    List,
    Ask(Vec<DeviceOption>),
    /// The place, in the list of devices, of the one to install on, plugged in by USB.
    Finish(Result<usize, Failure>),
    /// The event answers nothing that was asked: nothing to do.
    Ignore,
}

pub enum FindActionView {
    Call,
    List,
    Ask(Seq<DeviceOptionView>),
    Finish(Result<int, FailureView>),
    Ignore,
}

impl View for FindAction {
    type V = FindActionView;

    open spec fn view(&self) -> FindActionView {
        match self {
            FindAction::Call => FindActionView::Call,
            FindAction::List => FindActionView::List,
            FindAction::Ask(list) => FindActionView::Ask(options(list@)),
            FindAction::Finish(r) => FindActionView::Finish(
                match r {
                    Ok(i) => Ok(*i as int),
                    Err(f) => Err(f@),
                },
            ),
            FindAction::Ignore => FindActionView::Ignore,
        }
    }
}

pub type FindTurnView = TurnView<FindStateView, FindActionView>;

impl View for Turn<FindState, FindAction> {
    type V = FindTurnView;

    open spec fn view(&self) -> FindTurnView {
        TurnView { state: self.state@, notices: notices(self.notices@), action: self.action@ }
    }
}

pub open spec fn find_go(state: FindStateView, action: FindActionView) -> FindTurnView {
    TurnView { state, notices: Seq::<NoticeView>::empty(), action }
}

pub open spec fn find_end(r: Result<int, FailureView>) -> FindTurnView {
    find_go(FindStateView::Finished, FindActionView::Finish(r))
}

/// The first device plugged in by USB with the identifier that was settled on.
pub open spec fn settled(seen: Seq<AttachedDeviceView>, udid: Seq<char>) -> FindTurnView {
    match place_of(seen, udid, 0) {
        Some(i) => find_end(Ok(i)),
        None => find_end(Err(FailureView::plain(UNPLUGGED@, texts(UNPLUGGED_STEPS@)))),
    }
}

/// What follows from the devices seen.
pub open spec fn sorted_out(seen: Seq<AttachedDeviceView>) -> FindTurnView {
    let usb = on_usb(seen);
    if seen.len() == 0 {
        find_end(Err(FailureView::plain(NO_DEVICE@, texts(NO_DEVICE_STEPS@))))
    } else if usb.len() == 0 {
        find_end(Err(FailureView::plain(WIFI_ONLY@, texts(WIFI_ONLY_STEPS@))))
    } else if usb.len() == 1 {
        settled(seen, usb[0].udid)
    } else {
        find_go(FindStateView::Choosing { seen }, FindActionView::Ask(offers(usb)))
    }
}

/// The answers of the exchange.
pub open spec fn find_turn(state: FindStateView, event: FindEventView) -> FindTurnView {
    match (state, event) {
        (FindStateView::Start, FindEventView::Begin) => find_go(
            FindStateView::Calling,
            FindActionView::Call,
        ),
        (FindStateView::Calling, FindEventView::Called(r)) => match r {
            Ok(_) => find_go(FindStateView::Listing, FindActionView::List),
            Err(e) => find_end(Err(explained(e, SERVICE_SILENT@, texts(SERVICE_SILENT_STEPS@)))),
        },
        (FindStateView::Listing, FindEventView::Listed(r)) => match r {
            Ok(seen) => sorted_out(seen),
            Err(e) => find_end(Err(explained(e, LIST_FAILED@, texts(LIST_FAILED_STEPS@)))),
        },
        (FindStateView::Choosing { seen }, FindEventView::Chosen(c)) => match c {
            Some(udid) => settled(seen, udid),
            None => find_end(Err(FailureView::abandoned(CHOICE_CANCELLED@))),
        },
        _ => find_go(state, FindActionView::Ignore),
    }
}

/// Where several devices are plugged in, a label can be made of the identifier of each.
pub open spec fn labelled(seen: Seq<AttachedDeviceView>) -> bool {
    on_usb(seen).len() > 1 ==> forall|i: int|
        0 <= i < seen.len() && (#[trigger] seen[i]).usb ==> has_label(seen[i].udid)
}

impl AttachedDevice {
    /// Whether a label can be made of the identifier.
    pub fn can_be_labelled(&self) -> (r: bool)
        ensures
            r == has_label(self@.udid),
    {
        let udid: &str = self.udid.as_str();
        let start: usize = cut(udid);
        udid.is_char_boundary(start)
    }

    fn offered(&self) -> (r: DeviceOption)
        requires
            has_label(self@.udid),
        ensures
            r@ == offer(self@),
    {
        let udid: &str = self.udid.as_str();
        let parts: (&str, &str) = udid.split_at(cut(udid));
        proof {
            encode_utf8_decode_utf8(parts.1@);
            assert(parts.1@ == label_tail(udid@));
        }
        let mut name: String = LABEL_HEAD.to_string();
        name.append(parts.1);
        DeviceOption { name, udid: self.udid.clone(), usb: true }
    }
}

/// Where the last bytes of an identifier begin.
fn cut(udid: &str) -> (r: usize)
    ensures
        r == label_start(udid@),
{
    let n: usize = udid.as_bytes().len();
    if n >= LABEL_BYTES {
        n - LABEL_BYTES
    } else {
        0
    }
}

fn go(state: FindState, action: FindAction) -> (t: Turn<FindState, FindAction>)
    ensures
        t@ == find_go(state@, action@),
{
    Turn { state, notices: silence(), action }
}

fn end(r: Result<usize, Failure>) -> (t: Turn<FindState, FindAction>)
    ensures
        t@ == find_end(
            match r {
                Ok(i) => Ok(i as int),
                Err(f) => Err(f@),
            },
        ),
{
    go(FindState::Finished, FindAction::Finish(r))
}

fn settle(seen: &Vec<AttachedDevice>, udid: &String) -> (t: Turn<FindState, FindAction>)
    ensures
        t@ == settled(devices(seen@), udid@),
{
    let ghost list = devices(seen@);
    for i in 0..seen.len()
        invariant
            list == devices(seen@),
            place_of(list, udid@, 0) == place_of(list, udid@, i as int),
    {
        assert(list[i as int] == seen@[i as int]@);
        if seen[i].usb && seen[i].udid == *udid {
            return end(Ok(i));
        }
    }
    end(Err(Failure::new(UNPLUGGED, &UNPLUGGED_STEPS)))
}

/// The places of the devices plugged in by USB.
fn usb_places(seen: &Vec<AttachedDevice>) -> (r: Vec<usize>)
    ensures
        r@.len() == on_usb(devices(seen@)).len(),
        forall|k: int|
            0 <= k < r@.len() ==> (#[trigger] r@[k]) < seen@.len() && seen@[r@[k] as int].usb
                && seen@[r@[k] as int]@ == on_usb(devices(seen@))[k],
{
    let ghost list = devices(seen@);
    let mut r: Vec<usize> = Vec::new();
    proof {
        reveal(Seq::filter);
        assert(on_usb(list.take(0)) =~= Seq::empty());
    }
    for i in 0..seen.len()
        invariant
            list == devices(seen@),
            r@.len() == on_usb(list.take(i as int)).len(),
            forall|k: int|
                0 <= k < r@.len() ==> (#[trigger] r@[k]) < seen@.len() && seen@[r@[k] as int].usb
                    && seen@[r@[k] as int]@ == on_usb(list.take(i as int))[k],
    {
        proof {
            reveal(Seq::filter);
            assert(list.take(i + 1).drop_last() =~= list.take(i as int));
            assert(list.take(i + 1).last() == seen@[i as int]@);
        }
        if seen[i].usb {
            r.push(i);
        }
    }
    assert(list.take(list.len() as int) =~= list);
    r
}

fn sort_out(seen: Vec<AttachedDevice>) -> (t: Turn<FindState, FindAction>)
    requires
        labelled(devices(seen@)),
    ensures
        t@ == sorted_out(devices(seen@)),
{
    let ghost list = devices(seen@);
    let usb: Vec<usize> = usb_places(&seen);
    if seen.len() == 0 {
        end(Err(Failure::new(NO_DEVICE, &NO_DEVICE_STEPS)))
    } else if usb.len() == 0 {
        end(Err(Failure::new(WIFI_ONLY, &WIFI_ONLY_STEPS)))
    } else if usb.len() == 1 {
        let udid: String = seen[usb[0]].udid.clone();
        settle(&seen, &udid)
    } else {
        let mut offered: Vec<DeviceOption> = Vec::new();
        for k in 0..usb.len()
            invariant
                list == devices(seen@),
                usb@.len() == on_usb(list).len(),
                usb@.len() > 1,
                labelled(list),
                forall|k: int|
                    0 <= k < usb@.len() ==> (#[trigger] usb@[k]) < seen@.len()
                        && seen@[usb@[k] as int].usb && seen@[usb@[k] as int]@ == on_usb(list)[k],
                offered@.len() == k,
                forall|j: int|
                    0 <= j < k ==> (#[trigger] offered@[j])@ == offer(on_usb(list)[j]),
        {
            assert(list[usb@[k as int] as int] == seen@[usb@[k as int] as int]@);
            offered.push(seen[usb[k]].offered());
        }
        assert(options(offered@) =~= offers(on_usb(list)));
        go(FindState::Choosing { seen }, FindAction::Ask(offered))
    }
}

/// Finds the iPhone to use.
pub fn find_device(state: FindState, event: FindEvent) -> (t: Turn<FindState, FindAction>)
    requires
        state@ is Listing ==> (event@ matches FindEventView::Listed(Ok(seen)) ==> labelled(seen)),
    ensures
        t@ == find_turn(state@, event@),
{
    match (state, event) {
        (FindState::Start, FindEvent::Begin) => go(FindState::Calling, FindAction::Call),
        (FindState::Calling, FindEvent::Called(r)) => match r {
            Ok(_) => go(FindState::Listing, FindAction::List),
            Err(e) => end(Err(explain_error(e.as_str(), SERVICE_SILENT, &SERVICE_SILENT_STEPS))),
        },
        (FindState::Listing, FindEvent::Listed(r)) => match r {
            Ok(seen) => sort_out(seen),
            Err(e) => end(Err(explain_error(e.as_str(), LIST_FAILED, &LIST_FAILED_STEPS))),
        },
        (FindState::Choosing { seen }, FindEvent::Chosen(c)) => match c {
            Some(udid) => settle(&seen, &udid),
            None => end(Err(Failure::cancelled(CHOICE_CANCELLED))),
        },
        (state, _) => go(state, FindAction::Ignore),
    }
}

/// A device that the exchange settles on is plugged in by USB, and is the first such one
/// with the identifier; the exchange fails only where there is none.
pub proof fn law_settled_device_is_the_first(seen: Seq<AttachedDeviceView>, udid: Seq<char>)
    ensures
        match settled(seen, udid).action {
            FindActionView::Finish(Ok(i)) => {
                &&& 0 <= i < seen.len()
                &&& seen[i].usb
                &&& seen[i].udid == udid
                &&& forall|j: int| 0 <= j < i && (#[trigger] seen[j]).usb ==> seen[j].udid != udid
            },
            _ => forall|j: int|
                0 <= j < seen.len() && (#[trigger] seen[j]).usb ==> seen[j].udid != udid,
        },
{
    lemma_place_of(seen, udid, 0);
}

proof fn lemma_place_of(seen: Seq<AttachedDeviceView>, udid: Seq<char>, from: int)
    requires
        0 <= from <= seen.len(),
    ensures
        match place_of(seen, udid, from) {
            Some(i) => {
                &&& from <= i < seen.len()
                &&& seen[i].usb
                &&& seen[i].udid == udid
                &&& forall|j: int|
                    from <= j < i && (#[trigger] seen[j]).usb ==> seen[j].udid != udid
            },
            None => forall|j: int|
                from <= j < seen.len() && (#[trigger] seen[j]).usb ==> seen[j].udid != udid,
        },
    decreases seen.len() - from,
{
    if from < seen.len() && !(seen[from].usb && seen[from].udid == udid) {
        lemma_place_of(seen, udid, from + 1);
    }
}

/// Whatever happens, the exchange ends well only with a device plugged in by USB: none is
/// ever used over Wi-Fi.
pub proof fn law_only_usb_devices_are_used(state: FindStateView, event: FindEventView)
    ensures
        find_turn(state, event).action matches FindActionView::Finish(Ok(i)) ==> {
            let seen = match (state, event) {
                (FindStateView::Choosing { seen }, _) => seen,
                (_, FindEventView::Listed(Ok(seen))) => seen,
                _ => Seq::empty(),
            };
            0 <= i < seen.len() && seen[i].usb
        },
{
    match (state, event) {
        (FindStateView::Listing, FindEventView::Listed(Ok(seen))) => {
            if on_usb(seen).len() > 0 {
                law_settled_device_is_the_first(seen, on_usb(seen)[0].udid);
            }
        },
        (FindStateView::Choosing { seen }, FindEventView::Chosen(Some(udid))) => {
            law_settled_device_is_the_first(seen, udid);
        },
        _ => {},
    }
}

/// Each device plugged in by USB was seen.
proof fn lemma_on_usb(seen: Seq<AttachedDeviceView>)
    ensures
        forall|k: int|
            0 <= k < on_usb(seen).len() ==> (#[trigger] on_usb(seen)[k]).usb && seen.contains(
                on_usb(seen)[k],
            ),
    decreases seen.len(),
{
    reveal(Seq::filter);
    if seen.len() > 0 {
        let front = seen.drop_last();
        lemma_on_usb(front);
        assert forall|k: int| 0 <= k < on_usb(seen).len() implies (#[trigger] on_usb(
            seen,
        )[k]).usb && seen.contains(on_usb(seen)[k]) by {
            if k < on_usb(front).len() {
                let d = on_usb(front)[k];
                let j = choose|j: int| 0 <= j < front.len() && front[j] == d;
                assert(seen[j] == d);
            } else {
                assert(seen[seen.len() - 1] == on_usb(seen)[k]);
            }
        }
    }
}

/// Whichever of the offered devices the user picks, the exchange settles on a device
/// plugged in by USB with the identifier that was offered.
pub proof fn law_offered_device_can_be_picked(seen: Seq<AttachedDeviceView>, k: int)
    requires
        0 <= k < on_usb(seen).len(),
    ensures
        offers(on_usb(seen))[k].udid == on_usb(seen)[k].udid,
        settled(seen, offers(on_usb(seen))[k].udid).action matches FindActionView::Finish(Ok(i))
            && 0 <= i < seen.len() && seen[i].usb && seen[i].udid == offers(on_usb(seen))[k].udid,
{
    lemma_on_usb(seen);
    let d = on_usb(seen)[k];
    let j = choose|j: int| 0 <= j < seen.len() && seen[j] == d;
    assert(seen[j].usb && seen[j].udid == d.udid);
    law_settled_device_is_the_first(seen, d.udid);
}

/// The only device plugged in by USB is the one used, however else the same phone was seen.
pub proof fn law_single_usb_device_is_used(seen: Seq<AttachedDeviceView>)
    requires
        on_usb(seen).len() == 1,
    ensures
        sorted_out(seen).action matches FindActionView::Finish(Ok(i)) && 0 <= i < seen.len()
            && seen[i] == on_usb(seen)[0],
{
    lemma_on_usb(seen);
    assert(seen.contains(on_usb(seen)[0]));
    law_offered_device_can_be_picked(seen, 0);
}

/// A label can be made of every identifier in ASCII.
pub proof fn law_ascii_identifiers_have_labels(udid: Seq<char>)
    requires
        is_ascii_chars(udid),
    ensures
        has_label(udid),
{
    is_ascii_chars_encode_utf8(udid);
    lemma_ascii_boundary(udid, label_start(udid));
}

proof fn lemma_ascii_boundary(s: Seq<char>, i: int)
    requires
        is_ascii_chars(s),
        0 <= i <= s.len(),
    ensures
        is_char_boundary(encode_utf8(s), i),
    decreases s.len(),
{
    broadcast use vstd::utf8::encode_utf8_valid_utf8;

    if i > 0 {
        let rest = s.drop_first();
        is_ascii_chars_encode_utf8(s);
        is_ascii_chars_encode_utf8(rest);
        vstd::utf8::encode_utf8_first_scalar(s);
        assert(vstd::utf8::length_of_first_scalar(encode_utf8(s)) == 1);
        assert(vstd::utf8::pop_first_scalar(encode_utf8(s)) =~= encode_utf8(rest));
        lemma_ascii_boundary(rest, i - 1);
    }
}

/// The turn ends the exchange, and says nothing else.
pub open spec fn ends_search(t: FindTurnView, r: Result<int, FailureView>) -> bool {
    &&& t.state is Finished
    &&& t.notices.len() == 0
    &&& t.action == FindActionView::Finish(r)
}

/// The phone that is used is the one that was picked: the exchange ends with a device plugged
/// in by USB that has the very identifier, wherever there is one, and otherwise says that it is
/// no longer plugged in. A choice closed without an answer is a cancellation.
pub proof fn law_the_picked_phone_is_used(seen: Seq<AttachedDeviceView>, udid: Seq<char>)
    ensures
        ({
            let t = find_turn(
                FindStateView::Choosing { seen },
                FindEventView::Chosen(Some(udid)),
            );
            let is_there = exists|j: int|
                0 <= j < seen.len() && (#[trigger] seen[j]).usb && seen[j].udid == udid;
            &&& t.state is Finished
            &&& t.notices.len() == 0
            &&& is_there ==> (t.action matches FindActionView::Finish(Ok(i)) && 0 <= i < seen.len()
                && seen[i].usb && seen[i].udid == udid && forall|j: int|
                0 <= j < i && (#[trigger] seen[j]).usb ==> seen[j].udid != udid)
            &&& !is_there ==> ends_search(
                t,
                Err(
                    FailureView::plain(
                        "L'iPhone choisi n'est plus branche"@,
                        texts(UNPLUGGED_STEPS@),
                    ),
                ),
            )
        }),
        ends_search(
            find_turn(FindStateView::Choosing { seen }, FindEventView::Chosen(None)),
            Err(FailureView::abandoned("Choix de l'appareil annule"@)),
        ),
{
    law_settled_device_is_the_first(seen, udid);
}

/// What the devices seen lead to: the reasons why there is none to use, the only one, or the
/// question which one, in which each device plugged in by USB is offered, in order, under its
/// own identifier, and none else.
pub proof fn law_what_is_seen_decides(seen: Seq<AttachedDeviceView>)
    ensures
        ({
            let t = find_turn(FindStateView::Listing, FindEventView::Listed(Ok(seen)));
            let usb = on_usb(seen);
            &&& seen.len() == 0 ==> ends_search(
                t,
                Err(
                    FailureView::plain(
                        "Aucun iPhone n'est branche en USB"@,
                        texts(NO_DEVICE_STEPS@),
                    ),
                ),
            )
            &&& seen.len() > 0 && usb.len() == 0 ==> ends_search(
                t,
                Err(
                    FailureView::plain(
                        "L'iPhone est vu en Wi-Fi, pas en USB"@,
                        texts(WIFI_ONLY_STEPS@),
                    ),
                ),
            )
            &&& usb.len() == 1 ==> t.state is Finished && t.notices.len() == 0 && (
            t.action matches FindActionView::Finish(Ok(i)) && 0 <= i < seen.len() && seen[i]
                == usb[0])
            &&& usb.len() > 1 ==> {
                &&& t.state == (FindStateView::Choosing { seen })
                &&& t.notices.len() == 0
                &&& t.action matches FindActionView::Ask(offered) && offered.len() == usb.len()
                    && forall|k: int|
                    0 <= k < usb.len() ==> (#[trigger] offered[k]).udid == usb[k].udid
                        && offered[k].usb && offered[k].name == "Appareil ..."@ + label_tail(
                        usb[k].udid,
                    )
            }
        }),
{
    reveal(Seq::filter);
    if on_usb(seen).len() == 1 {
        law_single_usb_device_is_used(seen);
    }
    if seen.len() == 0 {
        assert(on_usb(seen).len() == 0);
    }
}

/// The service is called, and then asked for the devices; where it does not answer, or does
/// not list them, the exchange ends with the reason.
pub proof fn law_the_service_is_asked(e: Seq<char>)
    ensures
        ({
            let t0 = find_turn(FindStateView::Start, FindEventView::Begin);
            let t1 = find_turn(t0.state, FindEventView::Called(Ok(())));
            &&& t0.action is Call && t0.notices.len() == 0
            &&& t1.action is List && t1.notices.len() == 0
            &&& t1.state is Listing
            &&& ends_search(
                find_turn(t0.state, FindEventView::Called(Err(e))),
                Err(
                    explained(
                        e,
                        "Le service Apple ne repond plus"@,
                        texts(SERVICE_SILENT_STEPS@),
                    ),
                ),
            )
            &&& ends_search(
                find_turn(t1.state, FindEventView::Listed(Err(e))),
                Err(
                    explained(
                        e,
                        "Impossible de lister les appareils Apple"@,
                        texts(LIST_FAILED_STEPS@),
                    ),
                ),
            )
        }),
{
}

/// The devices plugged in by USB are picked out of the list one by one, in order.
pub proof fn law_usb_devices_are_picked_out(
    seen: Seq<AttachedDeviceView>,
    next: AttachedDeviceView,
)
    ensures
        on_usb(Seq::empty()) == Seq::<AttachedDeviceView>::empty(),
        next.usb ==> on_usb(seen.push(next)) == on_usb(seen).push(next),
        !next.usb ==> on_usb(seen.push(next)) == on_usb(seen),
{
    reveal(Seq::filter);
    assert(seen.push(next).drop_last() =~= seen);
    assert(on_usb(Seq::empty()) =~= Seq::<AttachedDeviceView>::empty());
}

/// A label can be made exactly where the last eight bytes of the identifier, or all of it
/// where it is shorter, are whole characters; they are what the label ends with.
pub proof fn law_labels_are_the_end_of_identifiers(udid: Seq<char>)
    ensures
        has_label(udid) ==> exists|head: Seq<char>|
            {
                &&& udid == #[trigger] (head + label_tail(udid))
                &&& encode_utf8(label_tail(udid)).len() == (if encode_utf8(udid).len() < 8 {
                    encode_utf8(udid).len()
                } else {
                    8
                })
            },
        (exists|head: Seq<char>, tail: Seq<char>|
            {
                &&& udid == #[trigger] (head + tail)
                &&& encode_utf8(tail).len() == (if encode_utf8(udid).len() < 8 {
                    encode_utf8(udid).len()
                } else {
                    8
                })
            }) ==> has_label(udid),
{
    broadcast use vstd::utf8::encode_utf8_valid_utf8;

    let bytes = encode_utf8(udid);
    let start = label_start(udid);
    if has_label(udid) {
        let rest = bytes.subrange(start, bytes.len() as int);
        let head = decode_utf8(bytes.subrange(0, start));
        vstd::utf8::valid_utf8_split(bytes, start);
        vstd::utf8::decode_utf8_split(bytes, start);
        encode_utf8_decode_utf8(udid);
        vstd::utf8::decode_utf8_encode_utf8(rest);
        assert(udid =~= head + label_tail(udid));
        assert(encode_utf8(label_tail(udid)).len() == rest.len());
    }
    if exists|head: Seq<char>, tail: Seq<char>|
        {
            &&& udid == #[trigger] (head + tail)
            &&& encode_utf8(tail).len() == (if bytes.len() < 8 {
                bytes.len()
            } else {
                8
            })
        } {
        let (head, tail) = choose|head: Seq<char>, tail: Seq<char>|
            {
                &&& udid == #[trigger] (head + tail)
                &&& encode_utf8(tail).len() == (if bytes.len() < 8 {
                    bytes.len()
                } else {
                    8
                })
            };
        lemma_boundary_between(head, tail);
    }
}

/// No character straddles the place where one text ends and another begins.
proof fn lemma_boundary_between(head: Seq<char>, tail: Seq<char>)
    ensures
        encode_utf8(head + tail).len() == encode_utf8(head).len() + encode_utf8(tail).len(),
        is_char_boundary(encode_utf8(head + tail), encode_utf8(head).len() as int),
    decreases head.len(),
{
    broadcast use vstd::utf8::encode_utf8_valid_utf8;

    let all = head + tail;
    if head.len() == 0 {
        assert(all =~= tail);
    } else {
        lemma_boundary_between(head.drop_first(), tail);
        assert(all.drop_first() =~= head.drop_first() + tail);
        vstd::utf8::encode_utf8_first_scalar(all);
        assert(vstd::utf8::pop_first_scalar(encode_utf8(all)) =~= encode_utf8(all.drop_first()));
    }
}

/// The event answers what was asked for in the state.
pub open spec fn is_find_answer(state: FindStateView, event: FindEventView) -> bool {
    match state {
        FindStateView::Start => event is Begin,
        FindStateView::Calling => event is Called,
        FindStateView::Listing => event is Listed,
        FindStateView::Choosing { .. } => event is Chosen,
        FindStateView::Finished => false,
    }
}

/// An event that was not waited for changes nothing, says nothing and asks for nothing.
pub proof fn law_only_awaited_find_events_count(state: FindStateView, event: FindEventView)
    ensures
        !is_find_answer(state, event) ==> {
            &&& find_turn(state, event).state == state
            &&& find_turn(state, event).notices.len() == 0
            &&& find_turn(state, event).action is Ignore
        },
        is_find_answer(state, event) ==> !(find_turn(state, event).action is Ignore),
{
}

/// Devices, events, actions and turns are seen with all that they hold.
pub proof fn law_search_is_seen_whole(
    list: Vec<AttachedDevice>,
    offered: Vec<DeviceOption>,
    called: Result<(), String>,
    e: String,
    udid: Option<String>,
    place: usize,
    f: Failure,
    t: Turn<FindState, FindAction>,
)
    ensures
        devices(list@).len() == list@.len(),
        forall|i: int|
            0 <= i < list@.len() ==> (#[trigger] devices(list@)[i]).udid == list@[i].udid@
                && devices(list@)[i].usb == list@[i].usb,
        options(offered@).len() == offered@.len(),
        forall|i: int|
            0 <= i < offered@.len() ==> (#[trigger] options(offered@)[i]).name
                == offered@[i].name@ && options(offered@)[i].udid == offered@[i].udid@ && options(
                offered@,
            )[i].usb == offered@[i].usb,
        FindEvent::Begin@ is Begin,
        FindEvent::Called(called)@ == FindEventView::Called(text_result(called)),
        FindEvent::Listed(Ok(list))@ == FindEventView::Listed(Ok(devices(list@))),
        FindEvent::Listed(Err(e))@ == FindEventView::Listed(Err(e@)),
        FindEvent::Chosen(udid)@ == FindEventView::Chosen(opt_string(udid)),
        (FindState::Choosing { seen: list })@ == (FindStateView::Choosing { seen: devices(list@) }),
        FindAction::Call@ is Call,
        FindAction::List@ is List,
        FindAction::Ask(offered)@ == FindActionView::Ask(options(offered@)),
        FindAction::Finish(Ok(place))@ == FindActionView::Finish(Ok(place as int)),
        FindAction::Finish(Err(f))@ == FindActionView::Finish(Err(f@)),
        FindAction::Ignore@ is Ignore,
        t@.state == t.state@,
        t@.notices == notices(t.notices@),
        t@.action == t.action@,
{
}

/// Labels are needed only where several devices are plugged in by USB, and then for those
/// devices alone.
pub proof fn law_when_labels_are_needed(seen: Seq<AttachedDeviceView>)
    ensures
        on_usb(seen).len() <= 1 ==> labelled(seen),
        (forall|i: int|
            0 <= i < seen.len() && (#[trigger] seen[i]).usb ==> is_ascii_chars(seen[i].udid))
            ==> labelled(seen),
        (forall|i: int|
            0 <= i < seen.len() && (#[trigger] seen[i]).usb ==> has_label(seen[i].udid))
            ==> labelled(seen),
{
    if forall|i: int|
        0 <= i < seen.len() && (#[trigger] seen[i]).usb ==> is_ascii_chars(seen[i].udid) {
        assert forall|i: int| 0 <= i < seen.len() && (#[trigger] seen[i]).usb implies has_label(
            seen[i].udid,
        ) by {
            law_ascii_identifiers_have_labels(seen[i].udid);
        }
    }
}

} // verus!
