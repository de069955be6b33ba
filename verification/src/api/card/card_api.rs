//! The card endpoints: one card by its id, and the collection page by page.

use crate::api::card::filter::CardFilter;
use crate::api::card::filtertypes::CardResponseField;
use crate::api::error::{ErrorView, MtgApiErrorKind};
use crate::api::json::JsonValue;
use crate::api::query::FilterValue;
use crate::api::response::ApiResponse;
use crate::api::transport::{answer, entity_answer, list_answer, response_outcome, Fetched};
use crate::api::util::{retrieve_card_from_body, retrieve_cards_from_body};
use crate::text::{decimal, decimal_text};
use reqwest::header::HeaderMap;
use vstd::prelude::*;

verus! {

/// The number of cards on a page unless the caller sets another.
pub const DEFAULT_PAGE_SIZE: u32 = 100;

/// The card endpoints of the service at one address.
pub struct CardApi {
    url: String,
}

impl View for CardApi {
    type V = Seq<char>;

    /// The address of the service.
    closed spec fn view(&self) -> Seq<char> {
        self.url@
    }
}

impl CardApi {
    /// The card endpoints of the service at `url`.
    pub fn new(url: String) -> (res: CardApi)
        ensures
            res@ == url@,
    {
        CardApi { url }
    }

    /// A cursor over all cards, at the first page.
    pub fn all(&self) -> (res: AllCardsRequest)
        ensures
            res@ == PageCursor::start(self@ + "/cards"@, Seq::empty(), DEFAULT_PAGE_SIZE),
    {
        AllCardsRequest::new(self.url.as_str(), DEFAULT_PAGE_SIZE)
    }

    /// A cursor over the cards that match `filter`, at the first page.
    pub fn all_filtered(&self, filter: CardFilter) -> (res: AllCardsRequest)
        ensures
            res@ == PageCursor::start(self@ + "/cards"@, filter@, DEFAULT_PAGE_SIZE),
    {
        AllCardsRequest::new_filtered(self.url.as_str(), DEFAULT_PAGE_SIZE, filter)
    }

    /// The address to ask for the card with the id `id`.
    pub fn find_url(&self, id: u32) -> (res: String)
        ensures
            res@ == self@ + "/cards/"@ + decimal(id as nat),
    {
        let mut url = self.url.clone();
        url.append("/cards/");
        url.append(decimal_text(id).as_str());
        url
    }

    /// The card in what came back from the address of `find_url`.
    pub fn find(&self, fetched: Fetched) -> (res: Result<ApiResponse<JsonValue>, MtgApiErrorKind>)
        ensures
            response_outcome(res) == entity_answer(
                fetched,
                "card"@,
                ErrorView::CardBodyParseError,
                ErrorView::CardNotFound,
            ),
    {
        match fetched.into_answer() {
            Ok((headers, body)) => answer(retrieve_card_from_body(body.as_str()), &headers),
            Err(kind) => Err(kind),
        }
    }
}

/// The state of a cursor over a collection.
pub struct PageCursor {
    /// The page that the next request asks for; the first page is 1.
    pub page: u32,
    /// The number of items on a page.
    pub page_size: u32,
    /// The address of the collection.
    pub url: Seq<char>,
    /// The filter expression; empty for no filter.
    pub filter: Seq<char>,
    /// The field to order by, once the caller has named one.
    pub order_by: Option<CardResponseField>,
}

impl PageCursor {
    /// A cursor at the first page, with no ordering named.
    pub open spec fn start(url: Seq<char>, filter: Seq<char>, page_size: u32) -> PageCursor {
        PageCursor { page: 1, page_size, url, filter, order_by: None }
    }

    /// The cursor moved to `page`.
    pub open spec fn at_page(self, page: u32) -> PageCursor {
        PageCursor { page, ..self }
    }

    /// The cursor with `page_size` items on a page.
    pub open spec fn sized(self, page_size: u32) -> PageCursor {
        PageCursor { page_size, ..self }
    }

    /// The cursor ordered by `field`.
    pub open spec fn ordered(self, field: CardResponseField) -> PageCursor {
        PageCursor { order_by: Some(field), ..self }
    }

    /// The part of the query that names the filter: the filter and `&`, or
    /// nothing at all for an empty filter.
    pub open spec fn filter_part(self) -> Seq<char> {
        if self.filter.len() == 0 {
            Seq::empty()
        } else {
            self.filter + "&"@
        }
    }

    /// The part of the query that names the ordering, once one is named.
    pub open spec fn order_part(self) -> Seq<char> {
        match self.order_by {
            Some(field) => "&orderBy="@ + field.shown(),
            None => Seq::empty(),
        }
    }

    /// The address that the next request goes to.
    pub open spec fn request_url(self) -> Seq<char> {
        self.url + "?"@ + self.filter_part() + "page="@ + decimal(self.page as nat) + "&pageSize="@
            + decimal(self.page_size as nat) + self.order_part()
    }

    /// The cursor one page on. There is no page after the last that 32
    /// bits can count: there the cursor stays.
    pub open spec fn advanced(self) -> PageCursor {
        if self.page < u32::MAX {
            self.at_page((self.page + 1) as u32)
        } else {
            self
        }
    }

    /// The cursor after `fetched` came back for its request: one page on
    /// where `fetched` gives a page, unmoved where it gives an error.
    pub open spec fn after(self, fetched: Fetched) -> PageCursor {
        if list_answer(fetched, "cards"@, ErrorView::CardBodyParseError) is Ok {
            self.advanced()
        } else {
            self
        }
    }
}

/// A cursor over the card collection. It asks for one page at a time and
/// moves on when a page came back.
pub struct AllCardsRequest {
    page: u32,
    url: String,
    filter: CardFilter,
    order_by: Option<CardResponseField>,
    page_size: u32,
}

impl View for AllCardsRequest {
    type V = PageCursor;

    closed spec fn view(&self) -> PageCursor {
        PageCursor {
            page: self.page,
            page_size: self.page_size,
            url: self.url@,
            filter: self.filter@,
            order_by: self.order_by,
        }
    }
}

impl AllCardsRequest {
    #[verifier::type_invariant]
    spec fn counts_from_one(self) -> bool {
        self.page >= 1 && self.page_size >= 1
    }

    fn new(api_url: &str, page_size: u32) -> (res: AllCardsRequest)
        requires
            page_size >= 1,
        ensures
            res@ == PageCursor::start(api_url@ + "/cards"@, Seq::empty(), page_size),
    {
        AllCardsRequest::new_filtered(api_url, page_size, CardFilter(String::new()))
    }

    fn new_filtered(api_url: &str, page_size: u32, filter: CardFilter) -> (res: AllCardsRequest)
        requires
            page_size >= 1,
        ensures
            res@ == PageCursor::start(api_url@ + "/cards"@, filter@, page_size),
    {
        proof {
            reveal_strlit("/");
            reveal_strlit("cards");
            reveal_strlit("/cards");
        }
        let mut url = api_url.to_owned();
        url.append("/");
        url.append("cards");
        assert(url@ =~= api_url@ + "/cards"@);
        AllCardsRequest { page: 1, url, filter, order_by: None, page_size }
    }

    /// The page that the next request asks for. It is never below 1.
    pub fn page(&self) -> (res: u32)
        ensures
            res == self@.page,
            res >= 1,
    {
        proof {
            use_type_invariant(self);
        }
        self.page
    }

    /// The number of cards on a page. It is never 0.
    pub fn page_size(&self) -> (res: u32)
        ensures
            res == self@.page_size,
            res >= 1,
    {
        proof {
            use_type_invariant(self);
        }
        self.page_size
    }

    /// Reads the page in what came back from the address of
    /// `create_filtered_url`. The cursor is not touched, whatever came back.
    pub fn read_page(&self, fetched: Fetched) -> (res: Result<
        ApiResponse<Vec<JsonValue>>,
        MtgApiErrorKind,
    >)
        ensures
            response_outcome(res) == list_answer(fetched, "cards"@, ErrorView::CardBodyParseError),
    {
        match fetched.into_answer() {
            Ok((headers, body)) => answer(retrieve_cards_from_body(body.as_str()), &headers),
            Err(kind) => Err(kind),
        }
    }

    /// Moves the cursor one page on. Nothing else of it changes.
    pub fn advance(&mut self)
        ensures
            final(self)@ == old(self)@.advanced(),
    {
        proof {
            use_type_invariant(&*self);
        }
        if self.page < u32::MAX {
            self.page = self.page + 1;
        }
    }

    /// Reads the page in what came back from the address of
    /// `create_filtered_url`, and moves the cursor one page on. Where no page
    /// came back, the cursor stays as it is in every part: the next request
    /// goes to the same address.
    pub fn next_page(&mut self, fetched: Fetched) -> (res: Result<
        ApiResponse<Vec<JsonValue>>,
        MtgApiErrorKind,
    >)
        ensures
            response_outcome(res) == list_answer(fetched, "cards"@, ErrorView::CardBodyParseError),
            final(self)@ == old(self)@.after(fetched),
            res is Err ==> final(self)@ == old(self)@,
    {
        let res = self.read_page(fetched);
        if res.is_ok() {
            self.advance();
        }
        res
    }

    /// Names the field that the following requests order the cards by.
    pub fn order_by(&mut self, field: CardResponseField)
        ensures
            final(self)@ == old(self)@.ordered(field),
    {
        proof {
            use_type_invariant(&*self);
        }
        self.order_by = Some(field);
    }

    /// Moves the cursor to `page` where `page` is 1 or more, and says
    /// whether it did. Pages count from 1: for 0 the cursor stays as it is.
    pub fn try_set_page(&mut self, page: u32) -> (moved: bool)
        ensures
            moved == (page >= 1),
            final(self)@ == if page >= 1 {
                old(self)@.at_page(page)
            } else {
                old(self)@
            },
    {
        if page >= 1 {
            self.set_page(page);
            true
        } else {
            false
        }
    }

    /// Sets the number of cards on a page where `size` is 1 or more, and
    /// says whether it did. For 0 the cursor stays as it is.
    pub fn try_set_page_size(&mut self, size: u32) -> (set: bool)
        ensures
            set == (size >= 1),
            final(self)@ == if size >= 1 {
                old(self)@.sized(size)
            } else {
                old(self)@
            },
    {
        if size >= 1 {
            self.set_page_size(size);
            true
        } else {
            false
        }
    }

    /// Moves the cursor to `page`, which is 1 or more.
    pub fn set_page(&mut self, page: u32)
        requires
            page >= 1,
        ensures
            final(self)@ == old(self)@.at_page(page),
    {
        proof {
            use_type_invariant(&*self);
        }
        self.page = page;
    }

    /// Sets the number of cards on the pages that the following requests
    /// ask for. It is 1 or more.
    pub fn set_page_size(&mut self, size: u32)
        requires
            size >= 1,
        ensures
            final(self)@ == old(self)@.sized(size),
    {
        proof {
            use_type_invariant(&*self);
        }
        self.page_size = size;
    }

    /// The address that the next request goes to: the collection, then the
    /// filter if there is one, the page, the page size, and the ordering if
    /// one was named.
    pub fn create_filtered_url(&self) -> (res: String)
        ensures
            res@ == self@.request_url(),
    {
        let mut url = self.url.clone();
        url.append("?");
        if !self.filter.0.as_str().is_empty() {
            url.append(self.filter.0.as_str());
            url.append("&");
        }
        url.append("page=");
        url.append(decimal_text(self.page).as_str());
        url.append("&pageSize=");
        url.append(decimal_text(self.page_size).as_str());
        match self.order_by {
            Some(field) => {
                url.append("&orderBy=");
                url.append(field.as_str());
            },
            None => {},
        }
        assert(url@ =~= self@.request_url());
        url
    }
}

/// A request that gave no page leaves the cursor as it was, at whatever
/// page it stands: the request after it goes to the same address and asks
/// for the same page.
pub proof fn lemma_failure_keeps_cursor(cursor: PageCursor, fetched: Fetched)
    requires
        list_answer(fetched, "cards"@, ErrorView::CardBodyParseError) is Err,
    ensures
        cursor.after(fetched) == cursor,
        cursor.after(fetched).request_url() == cursor.request_url(),
{
}

/// Two requests in a row that gave no page: both asked for the same page,
/// and the one after them asks for it again.
pub proof fn lemma_failures_repeat_request(cursor: PageCursor, first: Fetched, second: Fetched)
    requires
        list_answer(first, "cards"@, ErrorView::CardBodyParseError) is Err,
        list_answer(second, "cards"@, ErrorView::CardBodyParseError) is Err,
    ensures
        cursor.after(first).request_url() == cursor.request_url(),
        cursor.after(first).after(second) == cursor,
        cursor.after(first).after(second).request_url() == cursor.request_url(),
{
}

/// Whether a page came back is decided by the sending and by the body
/// alone. The headers never hold a page back: with the same body, a cursor
/// moves on with any headers or with none.
pub proof fn lemma_headers_never_stop_a_page(
    cursor: PageCursor,
    body: String,
    a: HeaderMap,
    b: HeaderMap,
)
    ensures
        cursor.after(Fetched::Answer { headers: a, body }) == cursor.after(
            Fetched::Answer { headers: b, body },
        ),
{
}

/// A cursor moved to a page asks for that page, and for the page after it
/// once that page came back. Nothing else of the cursor changes.
pub proof fn lemma_set_page_then_advance(cursor: PageCursor, page: u32, fetched: Fetched)
    requires
        1 <= page < u32::MAX,
        list_answer(fetched, "cards"@, ErrorView::CardBodyParseError) is Ok,
    ensures
        cursor.at_page(page).request_url() == cursor.url + "?"@ + cursor.filter_part() + "page="@
            + decimal(page as nat) + "&pageSize="@ + decimal(cursor.page_size as nat)
            + cursor.order_part(),
        cursor.at_page(page).after(fetched) == cursor.at_page((page + 1) as u32),
{
}

/// What comes back never moves a cursor to an earlier page, and never
/// touches the page size, the filter or the ordering.
pub proof fn lemma_cursor_never_goes_back(cursor: PageCursor, fetched: Fetched)
    ensures
        cursor.after(fetched).page >= cursor.page,
        cursor.page >= 1 ==> cursor.after(fetched).page >= 1,
        cursor.after(fetched) == cursor.at_page(cursor.after(fetched).page),
{
}

/// With an empty filter and no ordering named, the query holds the page and
/// the page size and nothing else: no filter segment, no `&` in front.
pub proof fn lemma_empty_filter_is_left_out(cursor: PageCursor)
    requires
        cursor.filter.len() == 0,
        cursor.order_by is None,
    ensures
        cursor.request_url() == cursor.url + "?"@ + "page="@ + decimal(cursor.page as nat)
            + "&pageSize="@ + decimal(cursor.page_size as nat),
{
    assert(cursor.request_url() =~= cursor.url + "?"@ + "page="@ + decimal(cursor.page as nat)
        + "&pageSize="@ + decimal(cursor.page_size as nat));
}

} // verus!
