//! Changes to the display gathered during one reconciliation and applied at its end.
use vstd::prelude::*;

use crate::display::{first_page, same_screen, Display, Page, Priority, Screen, SLOTS};

verus! {

/// What to do with one priority of the display.
#[derive(Debug)]
pub enum ScreenRequest {
    Show(Screen),
    Reset,
    Keep,
}

/// Requested changes to the display, by purpose.
pub struct DisplayRequest {
    pub failure: ScreenRequest,
    pub calibration_result: ScreenRequest,
    pub calibration_phase: ScreenRequest,
    pub queried_attribute: ScreenRequest,
    pub fallback_attribute: ScreenRequest,
}

/// The pages after a request was processed at the priority.
pub open spec fn processed(pages: Seq<Option<Page>>, request: ScreenRequest, priority: Priority) -> Seq<
    Option<Page>,
> {
    let i = priority as int;
    match request {
        ScreenRequest::Show(screen) => if pages[i] matches Some(p) && same_screen(p.screen, screen) {
            pages
        } else {
            pages.update(i, Some(Page { clock: 0, screen }))
        },
        ScreenRequest::Reset => pages.update(i, None),
        ScreenRequest::Keep => pages,
    }
}

/// The pages after all requests were applied: calibration results and
/// failures on the failure priority (a failure winning over a result),
/// the calibration phase as a dialog, then the queried and the fallback
/// attributes.
pub open spec fn applied(pages: Seq<Option<Page>>, request: DisplayRequest) -> Seq<Option<Page>> {
    let p1 = processed(pages, request.calibration_result, Priority::Failure);
    let p2 = processed(p1, request.failure, Priority::Failure);
    let p3 = processed(p2, request.calibration_phase, Priority::Dialog);
    let p4 = processed(p3, request.queried_attribute, Priority::Queried);
    processed(p4, request.fallback_attribute, Priority::Fallback)
}

/// Whether every part of the request keeps the display as it is.
pub open spec fn all_kept(request: DisplayRequest) -> bool {
    &&& request.failure is Keep
    &&& request.calibration_result is Keep
    &&& request.calibration_phase is Keep
    &&& request.queried_attribute is Keep
    &&& request.fallback_attribute is Keep
}

impl ScreenRequest {
    /// Hands the request over, leaving [`ScreenRequest::Keep`] behind.
    pub fn take(&mut self) -> (r: Self)
        ensures
            r == *old(self),
            *final(self) is Keep,
    {
        let mut taken = ScreenRequest::Keep;
        core::mem::swap(&mut taken, self);
        taken
    }

    /// Carries the request out at the priority.
    pub fn process(self, display: &mut Display, priority: Priority)
        ensures
            final(display).prioritized@ == processed(old(display).prioritized@, self, priority),
    {
        let ghost request = self;
        match self {
            ScreenRequest::Show(screen) => display.set(priority, screen),
            ScreenRequest::Reset => display.reset(priority),
            ScreenRequest::Keep => (),
        }
        assert(display.prioritized@ =~= processed(old(display).prioritized@, request, priority));
    }
}

impl DisplayRequest {
    /// A request that changes nothing.
    pub fn new() -> (r: Self)
        ensures
            all_kept(r),
    {
        Self {
            failure: ScreenRequest::Keep,
            calibration_result: ScreenRequest::Keep,
            calibration_phase: ScreenRequest::Keep,
            queried_attribute: ScreenRequest::Keep,
            fallback_attribute: ScreenRequest::Keep,
        }
    }

    /// Applies every part of the request to the display, leaving the
    /// request empty.
    pub fn apply(&mut self, display: &mut Display)
        ensures
            final(display).prioritized@ == applied(old(display).prioritized@, *old(self)),
            all_kept(*final(self)),
    {
        self.calibration_result.take().process(display, Priority::Failure);
        self.failure.take().process(display, Priority::Failure);
        self.calibration_phase.take().process(display, Priority::Dialog);
        self.queried_attribute.take().process(display, Priority::Queried);
        self.fallback_attribute.take().process(display, Priority::Fallback);
    }

    pub fn set_failure(&mut self, failure: Screen)
        ensures
            *final(self) == (DisplayRequest { failure: ScreenRequest::Show(failure), ..*old(self) }),
    {
        self.failure = ScreenRequest::Show(failure);
    }

    pub fn set_calibration_result(&mut self, calibration_result: Screen)
        ensures
            *final(self) == (DisplayRequest {
                calibration_result: ScreenRequest::Show(calibration_result),
                ..*old(self)
            }),
    {
        self.calibration_result = ScreenRequest::Show(calibration_result);
    }

    pub fn set_calibration_phase(&mut self, calibration_phase: Screen)
        ensures
            *final(self) == (DisplayRequest {
                calibration_phase: ScreenRequest::Show(calibration_phase),
                ..*old(self)
            }),
    {
        self.calibration_phase = ScreenRequest::Show(calibration_phase);
    }

    pub fn reset_calibration_phase(&mut self)
        ensures
            *final(self) == (DisplayRequest { calibration_phase: ScreenRequest::Reset, ..*old(self) }),
    {
        self.calibration_phase = ScreenRequest::Reset;
    }

    pub fn set_queried_attribute(&mut self, queried_attribute: Screen)
        ensures
            *final(self) == (DisplayRequest {
                queried_attribute: ScreenRequest::Show(queried_attribute),
                ..*old(self)
            }),
    {
        self.queried_attribute = ScreenRequest::Show(queried_attribute);
    }

    pub fn reset_queried_attribute(&mut self)
        ensures
            *final(self) == (DisplayRequest { queried_attribute: ScreenRequest::Reset, ..*old(self) }),
    {
        self.queried_attribute = ScreenRequest::Reset;
    }

    pub fn set_fallback_attribute(&mut self, fallback_attribute: Screen)
        ensures
            *final(self) == (DisplayRequest {
                fallback_attribute: ScreenRequest::Show(fallback_attribute),
                ..*old(self)
            }),
    {
        self.fallback_attribute = ScreenRequest::Show(fallback_attribute);
    }
}

/// Applying an empty request leaves the display as it is.
pub proof fn lemma_empty_request_keeps_display(pages: Seq<Option<Page>>, request: DisplayRequest)
    requires
        all_kept(request),
    ensures
        applied(pages, request) == pages,
{
}

/// With no page above `to`, the first page found from `from` is the one at `to`.
proof fn lemma_first_page_skips_empty(pages: Seq<Option<Page>>, from: int, to: int)
    requires
        0 <= from <= to < pages.len(),
        pages[to] is Some,
        forall|i: int| from <= i < to ==> pages[i] is None,
    ensures
        first_page(pages, from) == pages[to],
    decreases to - from,
{
    if from < to {
        lemma_first_page_skips_empty(pages, from + 1, to);
    }
}

/// A screen requested at a priority is the one the display shows, unless a
/// page of a higher priority is up.
pub proof fn lemma_shown_screen_is_active(pages: Seq<Option<Page>>, screen: Screen, priority: Priority)
    requires
        pages.len() == SLOTS,
        forall|i: int| 0 <= i < priority as int ==> pages[i] is None,
    ensures
        first_page(processed(pages, ScreenRequest::Show(screen), priority), 0) matches Some(p)
            && same_screen(p.screen, screen),
{
    let after = processed(pages, ScreenRequest::Show(screen), priority);
    lemma_first_page_skips_empty(after, 0, priority as int);
}

} // verus!
