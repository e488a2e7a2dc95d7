//! Scalping: which showings and ticket types of a listing are worth an
//! attempt, and in which order.

use vstd::prelude::*;
use crate::text::{lowercase_of, occurs_in, str_contains, views_of};
use crate::ticket::{ScreenInfo, ScreenTicketInfo, TicketInfo};

verus! {

/// Pause between two polls of the listing.
pub const POLL_INTERVAL_MS: u64 = 2_000;

/// Pause before the listing is asked for again after it could not be had.
pub const POLL_RETRY_MS: u64 = 1_000;

/// A ticket type to attempt, with the showing it belongs to and the time at
/// which that showing went on sale.
#[derive(Clone, Copy, Debug, PartialEq, Eq, Structural)]
pub struct Target {
    pub screen_id: usize,
    pub ticket_id: usize,
    pub sale_start: usize,
}

/// Scalping is offered for projects with real-name binding only.
pub open spec fn supports_leak_spec(id_bind: usize) -> bool {
    id_bind == 1 || id_bind == 2
}

/// Whether one of the words occurs in the text. Both are expected in
/// lowercase.
pub open spec fn mentions_any_spec(lowered_text: Seq<char>, lowered_words: Seq<Seq<char>>) -> bool {
    exists|i: int| 0 <= i < lowered_words.len() && occurs_in(#[trigger] lowered_words[i], lowered_text)
}

/// The skip words in lowercase; none where no words are given.
pub open spec fn lowered_spec(words: Option<Vec<String>>) -> Seq<Seq<char>> {
    match words {
        Some(ws) => Seq::new(ws@.len(), |i: int| lowercase_of(ws@[i]@)),
        None => Seq::empty(),
    }
}

/// Whether a ticket type is passed over: the name of its showing or its own
/// description holds one of the skip words, case ignored.
pub open spec fn is_skipped(ticket: ScreenTicketInfo, lowered_words: Seq<Seq<char>>) -> bool {
    mentions_any_spec(lowercase_of(ticket.screen_name@), lowered_words) || mentions_any_spec(
        lowercase_of(ticket.desc@),
        lowered_words,
    )
}

/// Whether a ticket type is worth an attempt.
pub open spec fn is_eligible(ticket: ScreenTicketInfo, lowered_words: Seq<Seq<char>>) -> bool {
    ticket.clickable && !is_skipped(ticket, lowered_words)
}

pub open spec fn target_of(screen: ScreenInfo, ticket: ScreenTicketInfo) -> Target {
    Target { screen_id: screen.id, ticket_id: ticket.id, sale_start: screen.sale_start }
}

/// The targets among the first `upto` ticket types of a showing, in listing
/// order.
pub open spec fn screen_targets(screen: ScreenInfo, lowered_words: Seq<Seq<char>>, upto: int) -> Seq<Target>
    decreases upto,
{
    if upto <= 0 {
        Seq::empty()
    } else {
        let before = screen_targets(screen, lowered_words, upto - 1);
        let ticket = screen.ticket_list@[upto - 1];
        if is_eligible(ticket, lowered_words) {
            before.push(target_of(screen, ticket))
        } else {
            before
        }
    }
}

/// The targets among the first `upto` showings of a listing, in listing
/// order. A showing that is not on sale contributes nothing.
pub open spec fn listing_targets(screens: Seq<ScreenInfo>, lowered_words: Seq<Seq<char>>, upto: int) -> Seq<
    Target,
>
    decreases upto,
{
    if upto <= 0 {
        Seq::empty()
    } else {
        let before = listing_targets(screens, lowered_words, upto - 1);
        let screen = screens[upto - 1];
        if screen.clickable {
            before + screen_targets(screen, lowered_words, screen.ticket_list@.len() as int)
        } else {
            before
        }
    }
}

/// All targets of a project.
pub open spec fn leak_targets_spec(project: TicketInfo, skip_words: Option<Vec<String>>) -> Seq<Target> {
    listing_targets(
        project.screen_list@,
        lowered_spec(skip_words),
        project.screen_list@.len() as int,
    )
}

/// Says whether scalping is offered for a project with this binding.
pub fn supports_leak(id_bind: usize) -> (supported: bool)
    ensures
        supported == supports_leak_spec(id_bind),
{
    id_bind == 1 || id_bind == 2
}

/// Says whether one of the words occurs in the text.
pub fn mentions_any(lowered_text: &str, lowered_words: &Vec<String>) -> (hit: bool)
    ensures
        hit == mentions_any_spec(lowered_text@, views_of(lowered_words@)),
{
    let mut i: usize = 0;
    while i < lowered_words.len()
        invariant
            i <= lowered_words.len(),
            forall|j: int|
                0 <= j < i ==> !occurs_in(#[trigger] views_of(lowered_words@)[j], lowered_text@),
        decreases lowered_words.len() - i,
    {
        assert(views_of(lowered_words@)[i as int] == lowered_words@[i as int]@);
        if str_contains(lowered_text, lowered_words[i].as_str()) {
            return true;
        }
        i += 1;
    }
    false
}

/// The lowercase forms of the skip words; none where no words are given.
pub fn lowered_words(words: &Option<Vec<String>>) -> (lowered: Vec<String>)
    ensures
        views_of(lowered@) == lowered_spec(*words),
{
    let mut lowered: Vec<String> = Vec::new();
    match words {
        None => {},
        Some(ws) => {
            let mut i: usize = 0;
            while i < ws.len()
                invariant
                    i <= ws.len(),
                    lowered@.len() == i,
                    forall|j: int| 0 <= j < i ==> (#[trigger] lowered@[j])@ == lowercase_of(ws@[j]@),
                decreases ws.len() - i,
            {
                lowered.push(ws[i].as_str().to_lowercase());
                i += 1;
            }
        },
    }
    assert(views_of(lowered@) =~= lowered_spec(*words));
    lowered
}

/// Says whether a ticket type is worth an attempt, given the skip words in
/// lowercase.
pub fn eligible(ticket: &ScreenTicketInfo, lowered_words: &Vec<String>) -> (yes: bool)
    ensures
        yes == is_eligible(*ticket, views_of(lowered_words@)),
{
    if !ticket.clickable {
        return false;
    }
    let title = ticket.screen_name.as_str().to_lowercase();
    if mentions_any(title.as_str(), lowered_words) {
        return false;
    }
    let description = ticket.desc.as_str().to_lowercase();
    !mentions_any(description.as_str(), lowered_words)
}

/// Collects the targets of a project in listing order: every ticket type on
/// sale, of every showing on sale, that holds none of the skip words.
pub fn leak_targets(project: &TicketInfo, skip_words: &Option<Vec<String>>) -> (targets: Vec<Target>)
    ensures
        targets@ == leak_targets_spec(*project, *skip_words),
{
    let words = lowered_words(skip_words);
    let mut targets: Vec<Target> = Vec::new();
    let mut s: usize = 0;
    while s < project.screen_list.len()
        invariant
            s <= project.screen_list.len(),
            targets@ == listing_targets(project.screen_list@, lowered_spec(*skip_words), s as int),
            views_of(words@) == lowered_spec(*skip_words),
        decreases project.screen_list.len() - s,
    {
        let screen = &project.screen_list[s];
        if screen.clickable {
            let ghost before = targets@;
            let mut t: usize = 0;
            while t < screen.ticket_list.len()
                invariant
                    t <= screen.ticket_list.len(),
                    targets@ == before + screen_targets(*screen, lowered_spec(*skip_words), t as int),
                    views_of(words@) == lowered_spec(*skip_words),
                decreases screen.ticket_list.len() - t,
            {
                let ticket = &screen.ticket_list[t];
                if eligible(ticket, &words) {
                    targets.push(
                        Target {
                            screen_id: screen.id,
                            ticket_id: ticket.id,
                            sale_start: screen.sale_start,
                        },
                    );
                }
                t += 1;
            }
        }
        s += 1;
    }
    targets
}

/// A listing without a showing on sale has no targets, whatever the skip
/// words are.
pub proof fn no_clickable_screen_no_target(screens: Seq<ScreenInfo>, lowered_words: Seq<Seq<char>>, upto: int)
    requires
        upto <= screens.len(),
        forall|i: int| 0 <= i < upto ==> !(#[trigger] screens[i]).clickable,
    ensures
        listing_targets(screens, lowered_words, upto) == Seq::<Target>::empty(),
    decreases upto,
{
    if upto > 0 {
        no_clickable_screen_no_target(screens, lowered_words, upto - 1);
    }
}

} // verus!
