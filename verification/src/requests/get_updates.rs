use crate::requests::Request;
use vstd::prelude::*;

verus! {

/// Enumeration of possible update types from telegram bot api
#[derive(Debug, Clone, Copy, PartialEq, Eq, Structural)]
pub enum AllowedUpdate {
    Message,
    EditedMessage,
    ChannelPost,
    EditedChannelPost,
    InlineQuery,
    ChosenInlineResult,
    CallbackQuery,
    ShippingQuery,
    PreCheckoutQuery,
}

/// Request to send [getUpdates](https://core.telegram.org/bots/api#getUpdates) request
#[derive(Debug, Clone, Copy)]
pub struct GetUpdatesRequest<'a> {
    /// Identifier of the first update to be returned. Must be greater by one than the highest
    /// among the identifiers of previously received updates.
    /// By default, updates starting with the earliest unconfirmed update are returned.
    /// An update is considered confirmed as soon as getUpdates is called with an offset higher than its update_id.
    /// The negative offset can be specified to retrieve updates starting from -offset update from the end of the updates queue.
    /// All previous updates will forgotten.
    pub offset: Option<i64>,
    /// Limits the number of updates to be retrieved. Values between 1-100 are accepted. Defaults to 100.
    pub limit: Option<u32>,
    /// Timeout in seconds for long polling. Defaults to 0, i.e. usual short polling.
    /// Should be positive, short polling should be used for testing purposes only.
    pub timeout: Option<u32>,
    /// List the types of updates you want your bot to receive.
    /// See Update for a complete list of available update types. Specify an empty list to receive all updates regardless of type (default).
    /// If not specified, the previous setting will be used.
    pub allowed_updates: Option<&'a [AllowedUpdate]>,
}

impl<'a> Request for GetUpdatesRequest<'a> {
    open spec fn method_name(&self) -> Seq<char> {
        "getUpdates"@
    }

    fn method(&self) -> (name: &'static str) {
        "getUpdates"
    }
}

impl<'a> GetUpdatesRequest<'a> {
    /// Create default request.
    pub fn new() -> (request: Self)
        ensures
            request.offset is None,
            request.limit is None,
            request.timeout is None,
            request.allowed_updates is None,
    {
        Self { offset: None, limit: None, timeout: None, allowed_updates: None }
    }
}

/// A set of update types, the filter of a poll.
#[derive(Debug, Clone, Copy, PartialEq, Eq, Structural)]
pub struct EventFilter {
    message: bool,
    edited_message: bool,
    channel_post: bool,
    edited_channel_post: bool,
    inline_query: bool,
    chosen_inline_result: bool,
    callback_query: bool,
    shipping_query: bool,
    pre_checkout_query: bool,
}

impl EventFilter {
    /// True when `kind` is in the set.
    pub closed spec fn has(&self, kind: AllowedUpdate) -> bool {
        match kind {
            AllowedUpdate::Message => self.message,
            AllowedUpdate::EditedMessage => self.edited_message,
            AllowedUpdate::ChannelPost => self.channel_post,
            AllowedUpdate::EditedChannelPost => self.edited_channel_post,
            AllowedUpdate::InlineQuery => self.inline_query,
            AllowedUpdate::ChosenInlineResult => self.chosen_inline_result,
            AllowedUpdate::CallbackQuery => self.callback_query,
            AllowedUpdate::ShippingQuery => self.shipping_query,
            AllowedUpdate::PreCheckoutQuery => self.pre_checkout_query,
        }
    }

    /// The members of the set in the order in which the API documents them,
    /// each once.
    pub closed spec fn listed(&self) -> Seq<AllowedUpdate> {
        let s = Seq::<AllowedUpdate>::empty();
        let s = if self.message { s.push(AllowedUpdate::Message) } else { s };
        let s = if self.edited_message { s.push(AllowedUpdate::EditedMessage) } else { s };
        let s = if self.channel_post { s.push(AllowedUpdate::ChannelPost) } else { s };
        let s = if self.edited_channel_post { s.push(AllowedUpdate::EditedChannelPost) } else { s };
        let s = if self.inline_query { s.push(AllowedUpdate::InlineQuery) } else { s };
        let s = if self.chosen_inline_result { s.push(AllowedUpdate::ChosenInlineResult) } else { s };
        let s = if self.callback_query { s.push(AllowedUpdate::CallbackQuery) } else { s };
        let s = if self.shipping_query { s.push(AllowedUpdate::ShippingQuery) } else { s };
        let s = if self.pre_checkout_query { s.push(AllowedUpdate::PreCheckoutQuery) } else { s };
        s
    }

    /// Two filters with the same members are the same filter.
    pub proof fn lemma_same_members(a: EventFilter, b: EventFilter)
        requires
            forall|kind: AllowedUpdate| a.has(kind) == b.has(kind),
        ensures
            a == b,
    {
        assert(a.has(AllowedUpdate::Message) == b.has(AllowedUpdate::Message));
        assert(a.has(AllowedUpdate::EditedMessage) == b.has(AllowedUpdate::EditedMessage));
        assert(a.has(AllowedUpdate::ChannelPost) == b.has(AllowedUpdate::ChannelPost));
        assert(a.has(AllowedUpdate::EditedChannelPost) == b.has(AllowedUpdate::EditedChannelPost));
        assert(a.has(AllowedUpdate::InlineQuery) == b.has(AllowedUpdate::InlineQuery));
        assert(a.has(AllowedUpdate::ChosenInlineResult) == b.has(
            AllowedUpdate::ChosenInlineResult,
        ));
        assert(a.has(AllowedUpdate::CallbackQuery) == b.has(AllowedUpdate::CallbackQuery));
        assert(a.has(AllowedUpdate::ShippingQuery) == b.has(AllowedUpdate::ShippingQuery));
        assert(a.has(AllowedUpdate::PreCheckoutQuery) == b.has(AllowedUpdate::PreCheckoutQuery));
    }

    /// `listed` names exactly the members, and none of them twice.
    pub proof fn lemma_listed(self)
        ensures
            forall|kind: AllowedUpdate| self.listed().contains(kind) == self.has(kind),
            self.listed().no_duplicates(),
    {
        let s0 = Seq::<AllowedUpdate>::empty();
        let s1 = if self.message { s0.push(AllowedUpdate::Message) } else { s0 };
        let s2 = if self.edited_message { s1.push(AllowedUpdate::EditedMessage) } else { s1 };
        let s3 = if self.channel_post { s2.push(AllowedUpdate::ChannelPost) } else { s2 };
        let s4 = if self.edited_channel_post { s3.push(AllowedUpdate::EditedChannelPost) } else { s3 };
        let s5 = if self.inline_query { s4.push(AllowedUpdate::InlineQuery) } else { s4 };
        let s6 = if self.chosen_inline_result { s5.push(AllowedUpdate::ChosenInlineResult) } else { s5 };
        let s7 = if self.callback_query { s6.push(AllowedUpdate::CallbackQuery) } else { s6 };
        let s8 = if self.shipping_query { s7.push(AllowedUpdate::ShippingQuery) } else { s7 };
        let s9 = if self.pre_checkout_query { s8.push(AllowedUpdate::PreCheckoutQuery) } else { s8 };
        assert(s9 == self.listed());
        Self::lemma_grown(s0, s1, AllowedUpdate::Message, self.message);
        Self::lemma_grown(s1, s2, AllowedUpdate::EditedMessage, self.edited_message);
        Self::lemma_grown(s2, s3, AllowedUpdate::ChannelPost, self.channel_post);
        Self::lemma_grown(s3, s4, AllowedUpdate::EditedChannelPost, self.edited_channel_post);
        Self::lemma_grown(s4, s5, AllowedUpdate::InlineQuery, self.inline_query);
        Self::lemma_grown(s5, s6, AllowedUpdate::ChosenInlineResult, self.chosen_inline_result);
        Self::lemma_grown(s6, s7, AllowedUpdate::CallbackQuery, self.callback_query);
        Self::lemma_grown(s7, s8, AllowedUpdate::ShippingQuery, self.shipping_query);
        Self::lemma_grown(s8, s9, AllowedUpdate::PreCheckoutQuery, self.pre_checkout_query);
        assert forall|kind: AllowedUpdate| s9.contains(kind) == self.has(kind) by {
            assert(!s0.contains(kind));
        }
    }

    /// What one conditional `push` does to the members of a sequence.
    proof fn lemma_grown(
        before: Seq<AllowedUpdate>,
        after: Seq<AllowedUpdate>,
        kind: AllowedUpdate,
        member: bool,
    )
        requires
            after == (if member {
                before.push(kind)
            } else {
                before
            }),
        ensures
            forall|other: AllowedUpdate| #[trigger]
                after.contains(other) == (before.contains(other) || (member && other == kind)),
            before.no_duplicates() && !before.contains(kind) ==> after.no_duplicates(),
    {
        if member {
            assert forall|other: AllowedUpdate| #[trigger]
                after.contains(other) == (before.contains(other) || other == kind) by {
                if before.contains(other) {
                    let i = choose|i: int| 0 <= i < before.len() && before[i] == other;
                    assert(after[i] == other);
                }
                if other == kind {
                    assert(after[before.len() as int] == other);
                }
            }
        }
    }

    /// The filter that lets no update type through.
    pub fn empty() -> (filter: EventFilter)
        ensures
            forall|kind: AllowedUpdate| !filter.has(kind),
    {
        EventFilter {
            message: false,
            edited_message: false,
            channel_post: false,
            edited_channel_post: false,
            inline_query: false,
            chosen_inline_result: false,
            callback_query: false,
            shipping_query: false,
            pre_checkout_query: false,
        }
    }

    /// Tells whether `kind` is in the set.
    pub fn contains(&self, kind: AllowedUpdate) -> (member: bool)
        ensures
            member == self.has(kind),
    {
        match kind {
            AllowedUpdate::Message => self.message,
            AllowedUpdate::EditedMessage => self.edited_message,
            AllowedUpdate::ChannelPost => self.channel_post,
            AllowedUpdate::EditedChannelPost => self.edited_channel_post,
            AllowedUpdate::InlineQuery => self.inline_query,
            AllowedUpdate::ChosenInlineResult => self.chosen_inline_result,
            AllowedUpdate::CallbackQuery => self.callback_query,
            AllowedUpdate::ShippingQuery => self.shipping_query,
            AllowedUpdate::PreCheckoutQuery => self.pre_checkout_query,
        }
    }

    /// Puts `kind` into the set.
    pub fn insert(&mut self, kind: AllowedUpdate)
        ensures
            forall|other: AllowedUpdate|
                final(self).has(other) == (old(self).has(other) || other == kind),
    {
        match kind {
            AllowedUpdate::Message => {
                self.message = true;
            },
            AllowedUpdate::EditedMessage => {
                self.edited_message = true;
            },
            AllowedUpdate::ChannelPost => {
                self.channel_post = true;
            },
            AllowedUpdate::EditedChannelPost => {
                self.edited_channel_post = true;
            },
            AllowedUpdate::InlineQuery => {
                self.inline_query = true;
            },
            AllowedUpdate::ChosenInlineResult => {
                self.chosen_inline_result = true;
            },
            AllowedUpdate::CallbackQuery => {
                self.callback_query = true;
            },
            AllowedUpdate::ShippingQuery => {
                self.shipping_query = true;
            },
            AllowedUpdate::PreCheckoutQuery => {
                self.pre_checkout_query = true;
            },
        }
    }

    /// The set of the update types that `kinds` names, however often and in
    /// whatever order it names them.
    pub fn from_slice(kinds: &[AllowedUpdate]) -> (filter: EventFilter)
        ensures
            forall|kind: AllowedUpdate| filter.has(kind) == kinds@.contains(kind),
    {
        let mut filter = EventFilter::empty();
        let mut i: usize = 0;
        while i < kinds.len()
            invariant
                i <= kinds.len(),
                forall|kind: AllowedUpdate|
                    filter.has(kind) == kinds@.take(i as int).contains(kind),
            decreases kinds.len() - i,
        {
            let ghost seen = kinds@.take(i as int);
            let ghost more = kinds@.take(i as int + 1);
            let ghost earlier = filter;
            filter.insert(kinds[i]);
            proof {
                assert(more =~= seen.push(kinds@[i as int]));
                assert forall|kind: AllowedUpdate| filter.has(kind) == more.contains(kind) by {
                    if seen.contains(kind) {
                        let j = choose|j: int| 0 <= j < seen.len() && seen[j] == kind;
                        assert(more[j] == kind);
                    }
                    if kind == kinds@[i as int] {
                        assert(more[i as int] == kind);
                    }
                    if more.contains(kind) {
                        let j = choose|j: int| 0 <= j < more.len() && more[j] == kind;
                        if j < i {
                            assert(seen[j] == kind);
                        }
                    }
                    assert(earlier.has(kind) == seen.contains(kind));
                }
            }
            i = i + 1;
        }
        proof {
            assert(kinds@.take(i as int) =~= kinds@);
        }
        filter
    }

    /// Lists the members, each once, in the order in which the API documents
    /// them.
    pub fn to_vec(&self) -> (kinds: Vec<AllowedUpdate>)
        ensures
            kinds@ == self.listed(),
            forall|kind: AllowedUpdate| kinds@.contains(kind) == self.has(kind),
            kinds@.no_duplicates(),
    {
        let mut kinds: Vec<AllowedUpdate> = Vec::new();
        if self.message {
            kinds.push(AllowedUpdate::Message);
        }
        if self.edited_message {
            kinds.push(AllowedUpdate::EditedMessage);
        }
        if self.channel_post {
            kinds.push(AllowedUpdate::ChannelPost);
        }
        if self.edited_channel_post {
            kinds.push(AllowedUpdate::EditedChannelPost);
        }
        if self.inline_query {
            kinds.push(AllowedUpdate::InlineQuery);
        }
        if self.chosen_inline_result {
            kinds.push(AllowedUpdate::ChosenInlineResult);
        }
        if self.callback_query {
            kinds.push(AllowedUpdate::CallbackQuery);
        }
        if self.shipping_query {
            kinds.push(AllowedUpdate::ShippingQuery);
        }
        if self.pre_checkout_query {
            kinds.push(AllowedUpdate::PreCheckoutQuery);
        }
        proof {
            self.lemma_listed();
        }
        kinds
    }
}

} // verus!
