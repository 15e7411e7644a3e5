//! Gathering a listing that the service hands out page by page.
//!
//! Pages are asked for one after the other, from page one on. What each page
//! holds is kept in the order in which the service gave it. The page whose
//! number equals the number of pages that it reports is the last one.

use crate::decode::Resource;
use crate::model::{
    views, PageView, Project, ProjectAssignment, ProjectAssignmentPage, ProjectPage,
    TaskAssignment, TaskAssignmentPage, TimeEntry, TimeEntryPage,
};
use crate::request::{listing_url, request_of, Harvest, HarvestView, Listing, Method, Request};
use crate::transport::{accepts, answers, receive, resource_in, Error};
use vstd::prelude::*;

verus! {

/// A resource that is one page of a listing.
pub trait Paged: Resource {
    type Item: View;

    /// The page as every page is modelled.
    spec fn page_model(model: Self::V) -> PageView<<Self::Item as View>::V>;

    /// The number of pages that the listing has, as this page reports it.
    fn total_pages(&self) -> (n: u32)
        ensures
            n == Self::page_model(self@).total_pages,
    ;

    /// Gives up the page for its items.
    fn into_items(self) -> (items: Vec<Self::Item>)
        ensures
            views(items@) == Self::page_model(self@).items,
    ;
}

impl Paged for ProjectPage {
    type Item = Project;

    open spec fn page_model(model: Self::V) -> PageView<<Self::Item as View>::V> {
        model
    }

    fn total_pages(&self) -> (n: u32) {
        self.total_pages
    }

    fn into_items(self) -> (items: Vec<Project>) {
        self.projects
    }
}

impl Paged for ProjectAssignmentPage {
    type Item = ProjectAssignment;

    open spec fn page_model(model: Self::V) -> PageView<<Self::Item as View>::V> {
        model
    }

    fn total_pages(&self) -> (n: u32) {
        self.total_pages
    }

    fn into_items(self) -> (items: Vec<ProjectAssignment>) {
        self.project_assignments
    }
}

impl Paged for TimeEntryPage {
    type Item = TimeEntry;

    open spec fn page_model(model: Self::V) -> PageView<<Self::Item as View>::V> {
        model
    }

    fn total_pages(&self) -> (n: u32) {
        self.total_pages
    }

    fn into_items(self) -> (items: Vec<TimeEntry>) {
        self.time_entries
    }
}

impl Paged for TaskAssignmentPage {
    type Item = TaskAssignment;

    open spec fn page_model(model: Self::V) -> PageView<<Self::Item as View>::V> {
        model
    }

    fn total_pages(&self) -> (n: u32) {
        self.total_pages
    }

    fn into_items(self) -> (items: Vec<TaskAssignment>) {
        self.task_assignments
    }
}

/// How the pages of a listing are kept.
#[derive(Clone, Copy, Debug, PartialEq, Eq, Structural)]
pub enum Policy {
    /// The items of all pages, as one sequence.
    Flatten,
    /// The pages themselves, one for each.
    Retain,
}

/// What a listing came to, by the policy that it was gathered with.
pub enum Gathered<P: Paged> {
    Items(Vec<P::Item>),
    Pages(Vec<P>),
}

/// Whether the page with the number `number` ends a listing of
/// `total_pages` pages. No page follows the one with the greatest number
/// that 32 bits hold.
pub open spec fn is_last(number: int, total_pages: u32) -> bool {
    number == total_pages || number >= u32::MAX
}

/// Decides `is_last` for a page that was asked for.
pub fn is_last_page(number: u32, total_pages: u32) -> (b: bool)
    ensures
        b == is_last(number as int, total_pages),
{
    number == total_pages || number == u32::MAX
}

/// The page that an answer holds, if it holds one.
pub open spec fn page_in<P: Paged>(reply: Result<String, Error>) -> Option<
    PageView<<P::Item as View>::V>,
> {
    match reply {
        Ok(body) => match resource_in::<P>(body@) {
            Some(model) => Some(P::page_model(model)),
            None => None,
        },
        Err(_) => None,
    }
}

/// Whether the listing goes on after the answer to the request for page
/// `number`: the answer holds a page, and it is not the last.
pub open spec fn goes_on<P: Paged>(reply: Result<String, Error>, number: int) -> bool {
    page_in::<P>(reply) matches Some(page) && !is_last(number, page.total_pages)
}

/// `replies` are the answers that one gathering takes in, from page one on:
/// the listing goes on after each but the last, and ends with the last.
pub open spec fn consumed<P: Paged>(replies: Seq<Result<String, Error>>) -> bool {
    &&& replies.len() >= 1
    &&& forall|i: int|
        0 <= i < replies.len() ==> (goes_on::<P>(#[trigger] replies[i], i + 1) <==> i
            < replies.len() - 1)
}

/// `replies` are what `send` gave back for the pages one, two and so on of
/// `listing`, each asked for with the headers of `h`.
pub open spec fn served<F: Fn(&Request) -> Result<String, Error>>(
    send: F,
    h: HarvestView,
    listing: Listing,
    replies: Seq<Result<String, Error>>,
) -> bool {
    forall|i: int|
        0 <= i < replies.len() ==> answers(
            send,
            request_of(h, Method::Get, listing_url(listing, (i + 1) as u32), None),
            #[trigger] replies[i],
        )
}

/// The pages that the answers hold, in order.
pub open spec fn pages_in<P: Paged>(replies: Seq<Result<String, Error>>) -> Seq<
    PageView<<P::Item as View>::V>,
> {
    replies.map_values(|reply: Result<String, Error>| page_in::<P>(reply)->0)
}

/// The pages of a sequence as every page is modelled, in order.
pub open spec fn page_models<P: Paged>(pages: Seq<P>) -> Seq<PageView<<P::Item as View>::V>> {
    pages.map_values(|page: P| P::page_model(page@))
}

/// The items of all the pages, page after page, each page in its own order.
pub open spec fn all_items<V>(pages: Seq<PageView<V>>) -> Seq<V>
    decreases pages.len(),
{
    if pages.len() == 0 {
        Seq::empty()
    } else {
        all_items(pages.drop_last()) + pages.last().items
    }
}

/// What a gathering that took in `replies` has to return. It fails as the
/// last answer did; where that answer holds a page, it returns what the
/// pages hold, kept by `policy`.
pub open spec fn gathered<P: Paged>(
    r: Result<Gathered<P>, Error>,
    replies: Seq<Result<String, Error>>,
    policy: Policy,
) -> bool {
    match replies.last() {
        Err(e) => r == Err::<Gathered<P>, Error>(e),
        Ok(_) => if page_in::<P>(replies.last()) is None {
            r == Err::<Gathered<P>, Error>(Error::Decode)
        } else {
            match policy {
                Policy::Flatten => r matches Ok(Gathered::Items(items)) && views(items@)
                    == all_items(pages_in::<P>(replies)),
                Policy::Retain => r matches Ok(Gathered::Pages(pages)) && page_models(pages@)
                    == pages_in::<P>(replies),
            }
        },
    }
}

/// The models of two sequences, one after the other, are the models of the
/// whole.
pub proof fn lemma_views_add<T: View>(a: Seq<T>, b: Seq<T>)
    ensures
        views(a + b) == views(a) + views(b),
{
    assert(views(a + b) =~= views(a) + views(b));
}

/// One more page adds its items at the end.
pub proof fn lemma_all_items_push<V>(pages: Seq<PageView<V>>, page: PageView<V>)
    ensures
        all_items(pages.push(page)) == all_items(pages) + page.items,
{
    assert(pages.push(page).drop_last() =~= pages);
}

/// Gathers `listing`: asks `send` for page one, then for the next page as
/// long as the listing goes on, and keeps what the pages hold by `policy`.
/// The first answer that is a failure, or holds no page, ends the gathering
/// with that failure.
pub fn gather<P: Paged, F: Fn(&Request) -> Result<String, Error>>(
    harvest: &Harvest,
    listing: &Listing,
    send: &F,
    policy: Policy,
) -> (r: Result<Gathered<P>, Error>)
    requires
        forall|page: u32|
            accepts(
                *send,
                #[trigger] request_of(harvest@, Method::Get, listing_url(*listing, page), None),
            ),
    ensures
        exists|replies: Seq<Result<String, Error>>|
            served(*send, harvest@, *listing, replies) && #[trigger] consumed::<P>(replies)
                && gathered(r, replies, policy),
{
    let mut items: Vec<P::Item> = Vec::new();
    let mut pages: Vec<P> = Vec::new();
    let mut number: u32 = 1;
    let ghost mut replies: Seq<Result<String, Error>> = Seq::empty();
    proof {
        assert(views(items@) =~= all_items(pages_in::<P>(replies)));
        assert(page_models(pages@) =~= pages_in::<P>(replies));
    }
    loop
        invariant
            forall|page: u32|
                accepts(
                    *send,
                    #[trigger] request_of(
                        harvest@,
                        Method::Get,
                        listing_url(*listing, page),
                        None,
                    ),
                ),
            1 <= number,
            replies.len() == number - 1,
            served(*send, harvest@, *listing, replies),
            forall|i: int| 0 <= i < replies.len() ==> goes_on::<P>(#[trigger] replies[i], i + 1),
            views(items@) == all_items(pages_in::<P>(replies)) || policy == Policy::Retain,
            page_models(pages@) == pages_in::<P>(replies) || policy == Policy::Flatten,
        decreases u32::MAX - number,
    {
        let request = harvest.page_request(listing, number);
        assert(accepts(
            *send,
            request_of(harvest@, Method::Get, listing_url(*listing, number), None),
        ));
        let reply = send(&request);
        let ghost before = replies;
        proof {
            replies = before.push(reply);
            assert(answers(
                *send,
                request_of(harvest@, Method::Get, listing_url(*listing, number), None),
                reply,
            )) by {
                assert(call_ensures(*send, (&request,), reply));
            }
            assert(served(*send, harvest@, *listing, replies));
            assert(pages_in::<P>(replies).drop_last() =~= pages_in::<P>(before));
        }
        let page = match receive::<P>(reply) {
            Ok(page) => page,
            Err(e) => {
                proof {
                    assert(!goes_on::<P>(replies.last(), replies.len() as int));
                    assert(consumed::<P>(replies));
                    assert(gathered::<P>(Err(e), replies, policy));
                }
                return Err(e);
            },
        };
        let total = page.total_pages();
        let ghost model = P::page_model(page@);
        proof {
            assert(pages_in::<P>(replies) =~= pages_in::<P>(before).push(model));
            lemma_all_items_push(pages_in::<P>(before), model);
        }
        match policy {
            Policy::Flatten => {
                let ghost kept = items@;
                let mut batch = page.into_items();
                let ghost added = batch@;
                items.append(&mut batch);
                proof {
                    lemma_views_add(kept, added);
                }
            },
            Policy::Retain => {
                let ghost kept = pages@;
                pages.push(page);
                proof {
                    assert(page_models(pages@) =~= page_models(kept).push(model));
                }
            },
        }
        if is_last_page(number, total) {
            let r = match policy {
                Policy::Flatten => Ok(Gathered::Items(items)),
                Policy::Retain => Ok(Gathered::Pages(pages)),
            };
            proof {
                assert(!goes_on::<P>(replies.last(), replies.len() as int));
                assert(consumed::<P>(replies));
                assert(gathered::<P>(r, replies, policy));
            }
            return r;
        }
        assert(goes_on::<P>(replies.last(), replies.len() as int));
        number += 1;
    }
}

/// A listing whose first page reports one page in all takes in one answer
/// and no more.
pub proof fn law_single_page<P: Paged>(replies: Seq<Result<String, Error>>)
    requires
        consumed::<P>(replies),
        page_in::<P>(replies[0]) matches Some(page) && page.total_pages == 1,
    ensures
        replies.len() == 1,
{
    assert(!goes_on::<P>(replies[0], 1int));
}

/// A listing whose pages all report the same number of pages, one at least,
/// takes in exactly that many answers: those for the pages from one up to
/// that number.
pub proof fn law_stable_count<P: Paged>(replies: Seq<Result<String, Error>>, total: u32)
    requires
        consumed::<P>(replies),
        total >= 1,
        forall|i: int|
            0 <= i < replies.len() ==> (page_in::<P>(#[trigger] replies[i]) matches Some(page)
                && page.total_pages == total),
    ensures
        replies.len() == total,
{
    let last = replies.len() - 1;
    assert(!goes_on::<P>(replies[last], last + 1));
    if total < replies.len() {
        assert(!goes_on::<P>(replies[total - 1], total as int));
    }
}

} // verus!
