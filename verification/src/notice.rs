//! What the exchanges of this crate tell the window.

use crate::text::strings;
use vstd::prelude::*;

verus! {

/// A step of the installation. The window shows all of them and marks the one under
/// way, so that a breakdown shows where it happened.
#[derive(Clone, Copy, Debug, PartialEq, Eq, Structural)]
pub enum Stage {
    Drivers,
    Device,
    Version,
    Download,
    Account,
    Sign,
    Install,
}

impl Stage {
    pub open spec fn name(self) -> Seq<char> {
        match self {
            Stage::Drivers => "drivers"@,
            Stage::Device => "device"@,
            Stage::Version => "version"@,
            Stage::Download => "download"@,
            Stage::Account => "account"@,
            Stage::Sign => "sign"@,
            Stage::Install => "install"@,
        }
    }

    /// The identifier by which the window knows the stage.
    pub fn id(self) -> (r: &'static str)
        ensures
            r@ == self.name(),
    {
        match self {
            Stage::Drivers => "drivers",
            Stage::Device => "device",
            Stage::Version => "version",
            Stage::Download => "download",
            Stage::Account => "account",
            Stage::Sign => "sign",
            Stage::Install => "install",
        }
    }
}

/// The progress bar: of unknown length, or filled by `done` parts of `total`.
#[derive(Clone, Copy, Debug, PartialEq, Eq, Structural)]
pub enum Progress {
    Unknown,
    Ratio { done: u64, total: u64 },
}

impl Progress {
    pub open spec fn empty() -> Progress {
        Progress::Ratio { done: 0, total: 1 }
    }

    pub open spec fn full() -> Progress {
        Progress::Ratio { done: 1, total: 1 }
    }

    /// A bar that is filled to some share of its length, from nothing to all of it, or whose
    /// length is unknown.
    pub open spec fn is_share(self) -> bool {
        self matches Progress::Ratio { done, total } ==> 0 < total && done <= total
    }
}

/// Something to tell the window.
#[derive(Debug)]
pub enum Notice {
    Stage(Stage),
    Status(String),
    Progress(Progress),
    /// How many bytes of a download have come, and how many are expected.
    Received { done: u64, total: u64 },
    /// The phone that was found, and its version of iOS.
    Device { name: String, ios: String },
    /// The installation is over; what is left to do on the phone.
    Done { title: String, steps: Vec<String> },
}

pub enum NoticeView {
    Stage(Stage),
    Status(Seq<char>),
    Progress(Progress),
    Received { done: u64, total: u64 },
    Device { name: Seq<char>, ios: Seq<char> },
    Done { title: Seq<char>, steps: Seq<Seq<char>> },
}

impl View for Notice {
    type V = NoticeView;

    open spec fn view(&self) -> NoticeView {
        match self {
            Notice::Stage(s) => NoticeView::Stage(*s),
            Notice::Status(t) => NoticeView::Status(t@),
            Notice::Progress(p) => NoticeView::Progress(*p),
            Notice::Received { done, total } => NoticeView::Received { done: *done, total: *total },
            Notice::Device { name, ios } => NoticeView::Device { name: name@, ios: ios@ },
            Notice::Done { title, steps } => NoticeView::Done {
                title: title@,
                steps: strings(steps@),
            },
        }
    }
}

pub open spec fn notices(list: Seq<Notice>) -> Seq<NoticeView> {
    list.map_values(|n: Notice| n@)
}

/// Every progress among the notices is a share of a whole.
pub open spec fn tells_shares(told: Seq<NoticeView>) -> bool {
    forall|i: int|
        0 <= i < told.len() ==> ((#[trigger] told[i]) matches NoticeView::Progress(p)
            ==> p.is_share())
}

pub(crate) fn silence() -> (r: Vec<Notice>)
    ensures
        notices(r@) == Seq::<NoticeView>::empty(),
{
    let r: Vec<Notice> = Vec::new();
    assert(notices(r@) =~= Seq::<NoticeView>::empty());
    r
}

pub(crate) fn status(text: &str) -> (r: Vec<Notice>)
    ensures
        notices(r@) == seq![NoticeView::Status(text@)],
{
    let mut r: Vec<Notice> = Vec::new();
    r.push(Notice::Status(text.to_string()));
    assert(notices(r@) =~= seq![NoticeView::Status(text@)]);
    r
}

/// Notices are seen with all that they hold, in order.
pub proof fn law_notices_are_seen_whole(
    list: Seq<Notice>,
    text: String,
    ios: String,
    steps: Vec<String>,
    stage: Stage,
    p: Progress,
    done: u64,
    total: u64,
)
    ensures
        notices(list).len() == list.len(),
        forall|i: int| 0 <= i < list.len() ==> #[trigger] notices(list)[i] == list[i]@,
        Notice::Stage(stage)@ == NoticeView::Stage(stage),
        Notice::Status(text)@ == NoticeView::Status(text@),
        Notice::Progress(p)@ == NoticeView::Progress(p),
        (Notice::Received { done, total })@ == (NoticeView::Received { done, total }),
        (Notice::Device { name: text, ios })@ == (NoticeView::Device { name: text@, ios: ios@ }),
        (Notice::Done { title: text, steps })@ == (NoticeView::Done {
            title: text@,
            steps: strings(steps@),
        }),
        Progress::empty() == (Progress::Ratio { done: 0, total: 1 }),
        Progress::full() == (Progress::Ratio { done: 1, total: 1 }),
{
}

/// The names by which the window knows the stages.
pub proof fn law_names_of_the_stages()
    ensures
        Stage::Drivers.name() == "drivers"@,
        Stage::Device.name() == "device"@,
        Stage::Version.name() == "version"@,
        Stage::Download.name() == "download"@,
        Stage::Account.name() == "account"@,
        Stage::Sign.name() == "sign"@,
        Stage::Install.name() == "install"@,
{
}

} // verus!
