//! The stream consumers' own state: the tickers they follow, the tickers
//! they are subscribed to, and the endpoints they read from and forward to.

use vstd::prelude::*;
use crate::config::Config;
use crate::text::same_text;
use crate::websocket::messages::{subscribe_one_message, ticker_event_text, unsubscribe_one_message};

verus! {

/// `tickers` followed by each incoming ticker that is not yet among them,
/// in order of first appearance.
pub open spec fn add_new_tickers(tickers: Seq<Seq<char>>, incoming: Seq<Seq<char>>) -> Seq<Seq<char>>
    decreases incoming.len(),
{
    if incoming.len() == 0 {
        tickers
    } else {
        let prev = add_new_tickers(tickers, incoming.drop_last());
        if prev.contains(incoming.last()) {
            prev
        } else {
            prev.push(incoming.last())
        }
    }
}

/// Following new tickers keeps the followed tickers first, in their order.
pub proof fn lemma_update_keeps_followed(tickers: Seq<Seq<char>>, incoming: Seq<Seq<char>>)
    ensures
        add_new_tickers(tickers, incoming).len() >= tickers.len(),
        add_new_tickers(tickers, incoming).take(tickers.len() as int) == tickers,
    decreases incoming.len(),
{
    if incoming.len() > 0 {
        lemma_update_keeps_followed(tickers, incoming.drop_last());
        let prev = add_new_tickers(tickers, incoming.drop_last());
        if !prev.contains(incoming.last()) {
            assert(prev.push(incoming.last()).take(tickers.len() as int) =~= prev.take(
                tickers.len() as int,
            ));
        }
    }
}

/// After following new tickers, a ticker is followed exactly when it was
/// followed before or was among the new ones.
pub proof fn lemma_update_members(tickers: Seq<Seq<char>>, incoming: Seq<Seq<char>>)
    ensures
        forall|x: Seq<char>|
            #[trigger] add_new_tickers(tickers, incoming).contains(x) <==> (tickers.contains(x)
                || incoming.contains(x)),
    decreases incoming.len(),
{
    if incoming.len() > 0 {
        let init = incoming.drop_last();
        lemma_update_members(tickers, init);
        let prev = add_new_tickers(tickers, init);
        let last = incoming.last();
        assert forall|x: Seq<char>|
            #[trigger] add_new_tickers(tickers, incoming).contains(x) <==> (tickers.contains(x)
                || incoming.contains(x)) by {
            if incoming.contains(x) && x != last {
                let k = choose|k: int| 0 <= k < incoming.len() && incoming[k] == x;
                assert(init[k] == x);
            }
            if init.contains(x) {
                let k = choose|k: int| 0 <= k < init.len() && init[k] == x;
                assert(incoming[k] == x);
            }
            assert(incoming[incoming.len() - 1] == last);
            if !prev.contains(last) {
                if prev.push(last).contains(x) && x != last {
                    let k = choose|k: int| 0 <= k < prev.push(last).len() && prev.push(last)[k] == x;
                    assert(prev[k] == x);
                }
                if prev.contains(x) {
                    let k = choose|k: int| 0 <= k < prev.len() && prev[k] == x;
                    assert(prev.push(last)[k] == x);
                }
                assert(prev.push(last)[prev.len() as int] == last);
            }
        }
    }
}

/// Following new tickers never makes a ticker followed twice.
pub proof fn lemma_update_keeps_distinct(tickers: Seq<Seq<char>>, incoming: Seq<Seq<char>>)
    requires
        tickers.no_duplicates(),
    ensures
        add_new_tickers(tickers, incoming).no_duplicates(),
    decreases incoming.len(),
{
    if incoming.len() > 0 {
        lemma_update_keeps_distinct(tickers, incoming.drop_last());
        let prev = add_new_tickers(tickers, incoming.drop_last());
        let last = incoming.last();
        if !prev.contains(last) {
            let next = prev.push(last);
            assert forall|a: int, b: int| 0 <= a < b < next.len() implies next[a] != next[b] by {
                if b == prev.len() {
                    assert(prev.contains(prev[a]));
                }
            }
        }
    }
}

/// Following tickers that are all followed already changes nothing.
pub proof fn lemma_update_with_followed(tickers: Seq<Seq<char>>, incoming: Seq<Seq<char>>)
    requires
        forall|i: int| 0 <= i < incoming.len() ==> tickers.contains(#[trigger] incoming[i]),
    ensures
        add_new_tickers(tickers, incoming) == tickers,
    decreases incoming.len(),
{
    if incoming.len() > 0 {
        let init = incoming.drop_last();
        assert forall|i: int| 0 <= i < init.len() implies tickers.contains(#[trigger] init[i]) by {
            assert(init[i] == incoming[i]);
        }
        lemma_update_with_followed(tickers, init);
        assert(tickers.contains(incoming[incoming.len() - 1]));
    }
}

/// Following the same tickers twice is the same as following them once.
pub proof fn lemma_update_idempotent(tickers: Seq<Seq<char>>, incoming: Seq<Seq<char>>)
    ensures
        add_new_tickers(add_new_tickers(tickers, incoming), incoming) == add_new_tickers(
            tickers,
            incoming,
        ),
{
    let once = add_new_tickers(tickers, incoming);
    lemma_update_members(tickers, incoming);
    assert forall|i: int| 0 <= i < incoming.len() implies once.contains(#[trigger] incoming[i]) by {
        assert(incoming.contains(incoming[i]));
    }
    lemma_update_with_followed(once, incoming);
}

/// Subscribing to a ticker and then unsubscribing from it leaves the
/// subscriptions as they were, when it was not subscribed before; and once
/// subscribed, subscribing again finds it subscribed.
pub proof fn lemma_subscribe_unsubscribe(subscriptions: Set<Seq<char>>, ticker: Seq<char>)
    ensures
        !subscriptions.contains(ticker) ==> subscriptions.insert(ticker).remove(ticker)
            == subscriptions,
        subscriptions.insert(ticker).contains(ticker),
        subscriptions.insert(ticker).insert(ticker) == subscriptions.insert(ticker),
{
    assert(subscriptions.insert(ticker).insert(ticker) =~= subscriptions.insert(ticker));
    if !subscriptions.contains(ticker) {
        assert(subscriptions.insert(ticker).remove(ticker) =~= subscriptions);
    }
}

/// The texts of a list of string slices.
pub open spec fn str_views(v: Seq<&str>) -> Seq<Seq<char>> {
    v.map_values(|s: &str| s@)
}

/// Where a consumer reads from, where it forwards to, and what it asks for.
#[derive(Debug)]
pub struct StreamPlan {
    pub ws: String,
    pub forward: Option<String>,
    pub tickers: Vec<String>,
}

/// Whether `t` is among `v`.
fn holds_ticker(v: &Vec<String>, t: &str) -> (r: bool)
    ensures
        r == v.deep_view().contains(t@),
{
    let mut i: usize = 0;
    while i < v.len()
        invariant
            i <= v.len(),
            forall|j: int| 0 <= j < i ==> v.deep_view()[j] != t@,
        decreases v.len() - i,
    {
        if same_text(v[i].as_str(), t) {
            assert(v.deep_view()[i as int] == t@);
            return true;
        }
        i = i + 1;
    }
    false
}

/// The position of `t` among `v`.
fn ticker_position(v: &Vec<String>, t: &str) -> (r: Option<usize>)
    ensures
        match r {
            Some(i) => i < v.len() && v.deep_view()[i as int] == t@,
            None => !v.deep_view().contains(t@),
        },
{
    let mut i: usize = 0;
    while i < v.len()
        invariant
            i <= v.len(),
            forall|j: int| 0 <= j < i ==> v.deep_view()[j] != t@,
        decreases v.len() - i,
    {
        if same_text(v[i].as_str(), t) {
            return Some(i);
        }
        i = i + 1;
    }
    None
}

/// The stock stream consumer.
pub struct StockSocket {
    config: Config,
    tickers: Vec<String>,
    subscribed_tickers: Vec<String>,
}

impl StockSocket {
    #[verifier::type_invariant]
    spec fn distinct_subscriptions(self) -> bool {
        self.subscribed_tickers.deep_view().no_duplicates()
    }

    /// The tickers the consumer follows, in order.
    pub closed spec fn followed(&self) -> Seq<Seq<char>> {
        self.tickers.deep_view()
    }

    /// The tickers the consumer is subscribed to.
    pub closed spec fn subscriptions(&self) -> Set<Seq<char>> {
        self.subscribed_tickers.deep_view().to_set()
    }

    /// The consumer's settings.
    pub closed spec fn settings(&self) -> Config {
        self.config
    }

    /// A consumer following no tickers and subscribed to none.
    pub fn new(config: Config) -> (r: StockSocket)
        ensures
            r.followed() == Seq::<Seq<char>>::empty(),
            r.subscriptions() == Set::<Seq<char>>::empty(),
            r.settings() == config,
    {
        let r = StockSocket { config, tickers: Vec::new(), subscribed_tickers: Vec::new() };
        assert(r.tickers.deep_view() =~= Seq::<Seq<char>>::empty());
        assert(r.subscribed_tickers.deep_view() =~= Seq::<Seq<char>>::empty());
        assert(r.subscriptions() =~= Set::<Seq<char>>::empty());
        r
    }

    /// The tickers the consumer follows.
    pub fn tickers(&self) -> (r: &Vec<String>)
        ensures
            r.deep_view() == self.followed(),
    {
        &self.tickers
    }

    /// Follows each of `tickers` that the consumer does not follow yet.
    pub fn update_tickers(&mut self, tickers: Vec<&str>)
        ensures
            final(self).followed() == add_new_tickers(old(self).followed(), str_views(tickers@)),
            final(self).subscriptions() == old(self).subscriptions(),
            final(self).settings() == old(self).settings(),
    {
        proof {
            use_type_invariant(&*self);
        }
        let ghost start = self.tickers.deep_view();
        let mut list: Vec<String> = Vec::new();
        std::mem::swap(&mut list, &mut self.tickers);
        let mut i: usize = 0;
        while i < tickers.len()
            invariant
                i <= tickers.len(),
                list.deep_view() == add_new_tickers(start, str_views(tickers@.take(i as int))),
            decreases tickers.len() - i,
        {
            let t = tickers[i];
            assert(str_views(tickers@.take(i + 1)).drop_last() =~= str_views(tickers@.take(i as int)));
            assert(str_views(tickers@.take(i + 1)).last() == t@);
            if !holds_ticker(&list, t) {
                list.push(String::from_str(t));
                assert(list.deep_view() =~= add_new_tickers(
                    start,
                    str_views(tickers@.take(i as int)),
                ).push(t@));
            }
            i = i + 1;
        }
        assert(tickers@.take(tickers.len() as int) =~= tickers@);
        self.tickers = list;
    }

    /// Subscribes to `ticker` unless already subscribed; gives the message
    /// to send upstream when it subscribes.
    pub fn subscribe_to_stock(&mut self, ticker: &str) -> (msg: Option<String>)
        ensures
            final(self).subscriptions() == old(self).subscriptions().insert(ticker@),
            final(self).followed() == old(self).followed(),
            final(self).settings() == old(self).settings(),
            old(self).subscriptions().contains(ticker@) ==> msg is None,
            !old(self).subscriptions().contains(ticker@) ==> (msg matches Some(m) && m@
                == ticker_event_text("subscribe"@, seq![ticker@])),
    {
        proof {
            use_type_invariant(&*self);
        }
        let ghost before = self.subscribed_tickers.deep_view();
        if holds_ticker(&self.subscribed_tickers, ticker) {
            proof {
                assert(before.to_set().contains(ticker@));
                assert(before.to_set().insert(ticker@) =~= before.to_set());
            }
            None
        } else {
            let msg = subscribe_one_message(ticker);
            let mut list: Vec<String> = Vec::new();
            std::mem::swap(&mut list, &mut self.subscribed_tickers);
            list.push(String::from_str(ticker));
            proof {
                assert(list.deep_view() =~= before.push(ticker@));
                assert(list.deep_view().no_duplicates()) by {
                    assert forall|a: int, b: int|
                        0 <= a < b < list.deep_view().len() implies list.deep_view()[a]
                        != list.deep_view()[b] by {
                        if b == before.len() {
                            assert(before.contains(before[a]));
                        }
                    }
                }
                assert(list.deep_view().to_set() =~= before.to_set().insert(ticker@)) by {
                    assert forall|x: Seq<char>| list.deep_view().to_set().contains(x) <==> before.to_set().insert(ticker@).contains(x) by {
                        if list.deep_view().contains(x) {
                            let k = choose|k: int| 0 <= k < list.deep_view().len() && list.deep_view()[k] == x;
                            if k < before.len() {
                                assert(before[k] == x);
                            }
                        }
                        if before.contains(x) {
                            let k = choose|k: int| 0 <= k < before.len() && before[k] == x;
                            assert(list.deep_view()[k] == x);
                        }
                        if x == ticker@ {
                            assert(list.deep_view()[before.len() as int] == x);
                        }
                    }
                }
            }
            self.subscribed_tickers = list;
            Some(msg)
        }
    }

    /// Unsubscribes from `ticker` if subscribed; gives the message to send
    /// upstream when it unsubscribes.
    pub fn unsubscribe_from_stock(&mut self, ticker: &str) -> (msg: Option<String>)
        ensures
            final(self).subscriptions() == old(self).subscriptions().remove(ticker@),
            final(self).followed() == old(self).followed(),
            final(self).settings() == old(self).settings(),
            !old(self).subscriptions().contains(ticker@) ==> msg is None,
            old(self).subscriptions().contains(ticker@) ==> (msg matches Some(m) && m@
                == ticker_event_text("unsubscribe"@, seq![ticker@])),
    {
        proof {
            use_type_invariant(&*self);
        }
        let ghost before = self.subscribed_tickers.deep_view();
        match ticker_position(&self.subscribed_tickers, ticker) {
            None => {
                proof {
                    assert(before.to_set().remove(ticker@) =~= before.to_set());
                }
                None
            },
            Some(i) => {
                let mut list: Vec<String> = Vec::new();
                std::mem::swap(&mut list, &mut self.subscribed_tickers);
                let _removed = list.remove(i);
                proof {
                    assert(list.deep_view() =~= before.remove(i as int));
                    assert(list.deep_view().no_duplicates()) by {
                        assert forall|a: int, b: int|
                            0 <= a < b < list.deep_view().len() implies list.deep_view()[a]
                            != list.deep_view()[b] by {
                            let a2 = if a < i { a } else { a + 1 };
                            let b2 = if b < i { b } else { b + 1 };
                            assert(list.deep_view()[a] == before[a2]);
                            assert(list.deep_view()[b] == before[b2]);
                        }
                    }
                    assert(list.deep_view().to_set() =~= before.to_set().remove(ticker@)) by {
                        assert forall|x: Seq<char>| list.deep_view().to_set().contains(x) <==> before.to_set().remove(ticker@).contains(x) by {
                            if list.deep_view().contains(x) {
                                let k = choose|k: int| 0 <= k < list.deep_view().len() && list.deep_view()[k] == x;
                                let k2 = if k < i { k } else { k + 1 };
                                assert(before[k2] == x);
                                assert(k2 != i);
                            }
                            if before.contains(x) && x != ticker@ {
                                let k = choose|k: int| 0 <= k < before.len() && before[k] == x;
                                assert(k != i);
                                if k < i {
                                    assert(list.deep_view()[k] == x);
                                } else {
                                    assert(list.deep_view()[k - 1] == x);
                                }
                            }
                        }
                    }
                }
                self.subscribed_tickers = list;
                Some(unsubscribe_one_message(ticker))
            },
        }
    }

    /// What the consumer streams: the stock stream, forwarded to the stock
    /// forward endpoint, for the tickers it follows.
    pub fn stream_plan(&self) -> (r: StreamPlan)
        ensures
            r.ws@ == self.settings().websocket.stock_ws@,
            r.forward matches Some(f) && f@ == self.settings().websocket.fwd_stock_ws@,
            r.tickers.deep_view() == self.followed(),
    {
        StreamPlan {
            ws: self.config.websocket.stock_ws.clone(),
            forward: Some(self.config.websocket.fwd_stock_ws.clone()),
            tickers: self.tickers.clone(),
        }
    }
}

/// The crypto stream consumer.
pub struct CryptoSocket {
    config: Config,
    tickers: Vec<String>,
}

impl CryptoSocket {
    /// The tickers the consumer follows, in order.
    pub closed spec fn followed(&self) -> Seq<Seq<char>> {
        self.tickers.deep_view()
    }

    /// The consumer's settings.
    pub closed spec fn settings(&self) -> Config {
        self.config
    }

    /// A consumer following no tickers.
    pub fn new(config: Config) -> (r: CryptoSocket)
        ensures
            r.followed() == Seq::<Seq<char>>::empty(),
            r.settings() == config,
    {
        let r = CryptoSocket { config, tickers: Vec::new() };
        assert(r.tickers.deep_view() =~= Seq::<Seq<char>>::empty());
        r
    }

    /// What the consumer streams: it reads the stock stream and forwards to
    /// the stock forward endpoint, for the tickers it follows.
    pub fn stream_plan(&self) -> (r: StreamPlan)
        ensures
            r.ws@ == self.settings().websocket.stock_ws@,
            r.forward matches Some(f) && f@ == self.settings().websocket.fwd_stock_ws@,
            r.tickers.deep_view() == self.followed(),
    {
        StreamPlan {
            ws: self.config.websocket.stock_ws.clone(),
            forward: Some(self.config.websocket.fwd_stock_ws.clone()),
            tickers: self.tickers.clone(),
        }
    }

    /// What the consumer streams when it handles the updates itself: the
    /// crypto stream, forwarded nowhere, for the given tickers.
    pub fn direct_stream_plan(&self, tickers: &Vec<String>) -> (r: StreamPlan)
        ensures
            r.ws@ == self.settings().websocket.crypto_ws@,
            r.forward is None,
            r.tickers.deep_view() == tickers.deep_view(),
    {
        StreamPlan { ws: self.config.websocket.crypto_ws.clone(), forward: None, tickers: tickers.clone() }
    }
}

/// The forex stream consumer.
pub struct ForexSocket {
    config: Config,
}

impl ForexSocket {
    /// The consumer's settings.
    pub closed spec fn settings(&self) -> Config {
        self.config
    }

    /// A consumer with the given settings.
    pub fn new(config: Config) -> (r: ForexSocket)
        ensures
            r.settings() == config,
    {
        ForexSocket { config }
    }

    /// What the consumer streams: the forex stream, forwarded nowhere, for
    /// the given tickers; it handles the updates itself.
    pub fn stream_plan(&self, tickers: &Vec<String>) -> (r: StreamPlan)
        ensures
            r.ws@ == self.settings().websocket.forex_ws@,
            r.forward is None,
            r.tickers.deep_view() == tickers.deep_view(),
    {
        StreamPlan { ws: self.config.websocket.forex_ws.clone(), forward: None, tickers: tickers.clone() }
    }
}

} // verus!
