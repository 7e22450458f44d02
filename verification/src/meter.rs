//! Progress that is told once per percent: the libraries report far more often than
//! anything on the screen changes.

use crate::notice::{notices, silence, tells_shares, Notice, NoticeView, Progress};
use vstd::prelude::*;

verus! {

/// The percentage from which on the transfer is over and the phone installs.
pub const TRANSFERRED: u64 = 70;

pub const INSTALLING_ON_DEVICE: &'static str = "Installation sur l'iPhone...";

/// The last percentage told, if one was.
#[derive(Clone, Copy, Debug, PartialEq, Eq, Structural)]
pub struct Meter {
    pub last: Option<u64>,
}

impl Meter {
    pub fn new() -> (m: Meter)
        ensures
            m.last is None,
    {
        Meter { last: None }
    }

    /// A percentage is news.
    pub open spec fn is_news(self, percent: u64) -> bool {
        self.last != Some(percent)
    }

    /// Notes a percentage, and says whether it is news.
    pub fn moved(&mut self, percent: u64) -> (r: bool)
        ensures
            r == (old(self).last != Some(percent)),
            r == old(self).is_news(percent),
            final(self).last == Some(percent),
    {
        let news: bool = match self.last {
            Some(p) => p != percent,
            None => true,
        };
        self.last = Some(percent);
        news
    }

    /// The percentage of a transfer, which is a hundred at most.
    pub open spec fn capped(percent: u64) -> u64 {
        if percent < 100 {
            percent
        } else {
            100
        }
    }

    /// What is shown for the progress of a transfer.
    pub open spec fn transfer_news(self, percent: u64) -> Seq<NoticeView> {
        let p = Meter::capped(percent);
        if self.last == Some(p) {
            Seq::empty()
        } else if p < TRANSFERRED {
            seq![NoticeView::Progress(Progress::Ratio { done: p, total: 100 })]
        } else {
            seq![
                NoticeView::Progress(Progress::Ratio { done: p, total: 100 }),
                NoticeView::Status(INSTALLING_ON_DEVICE@),
            ]
        }
    }

    /// Notes the progress of a transfer to the phone, and says what to show.
    pub fn transfer(&mut self, percent: u64) -> (r: Vec<Notice>)
        ensures
            notices(r@) == old(self).transfer_news(percent),
            final(self).last == Some(Meter::capped(percent)),
    {
        let p: u64 = if percent < 100 {
            percent
        } else {
            100
        };
        let ghost before = *self;
        if !self.moved(p) {
            return silence();
        }
        let mut r: Vec<Notice> = Vec::new();
        r.push(Notice::Progress(Progress::Ratio { done: p, total: 100 }));
        if p >= TRANSFERRED {
            r.push(Notice::Status(INSTALLING_ON_DEVICE.to_string()));
        }
        assert(notices(r@) =~= before.transfer_news(percent));
        r
    }
}

/// The same percentage twice in a row is told once.
pub proof fn law_no_percentage_twice_in_a_row(meter: Meter, percent: u64)
    requires
        meter.last == Some(Meter::capped(percent)),
    ensures
        meter.transfer_news(percent).len() == 0,
{
}

/// Whatever percentage is reported, the progress told is between nothing and all of it.
pub proof fn law_transfer_progress_is_a_share(meter: Meter, percent: u64)
    ensures
        tells_shares(meter.transfer_news(percent)),
{
}

/// A percentage of a transfer that differs from the last one is told as it is, a hundred at
/// most, and from the seventieth on with the word that the phone installs.
pub proof fn law_new_percentages_are_told(meter: Meter, percent: u64)
    ensures
        ({
            let p: u64 = if percent > 100 {
                100
            } else {
                percent
            };
            let told = meter.transfer_news(percent);
            let bar = NoticeView::Progress(Progress::Ratio { done: p, total: 100 });
            &&& Meter::capped(percent) == p
            &&& meter.last != Some(p) && p < 70 ==> told == seq![bar]
            &&& meter.last != Some(p) && p >= 70 ==> told == seq![
                bar,
                NoticeView::Status("Installation sur l'iPhone..."@),
            ]
        }),
{
}

/// A percentage is news exactly where it is the first, or another than the one before.
pub proof fn law_what_is_news(percent: u64, before: u64)
    ensures
        (Meter { last: None }).is_news(percent),
        (Meter { last: Some(before) }).is_news(percent) <==> percent != before,
{
}

} // verus!
