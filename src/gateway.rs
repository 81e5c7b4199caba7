//! Settings of the transaction source that pages through a Radix Gateway.
use vstd::prelude::*;

verus! {

/// The gateway polled when no other is set.
pub const PUBLIC_MAINNET_GATEWAY_URL: &'static str = "https://mainnet.radixdlt.com";

/// The state version fetching starts from when no other is set.
pub const DEFAULT_STATE_VERSION: u64 = 1;

/// Transactions fetched per page when no other number is set.
pub const DEFAULT_PAGE_SIZE: u32 = 100;

/// Transactions buffered for the processor when no other number is set.
pub const DEFAULT_BUFFER_CAPACITY: u64 = 10000;

/// Wait after a poll that found nothing new, when no other is set.
pub const DEFAULT_CAUGHT_UP_TIMEOUT_MS: u64 = 500;

/// Where and how a gateway source fetches transactions, built with defaults
/// and then adjusted one setting at a time.
pub struct GatewayTransactionStream {
    gateway_url: String,
    from_state_version: u64,
    limit_per_page: u32,
    buffer_capacity: u64,
    caught_up_timeout_ms: u64,
}

impl GatewayTransactionStream {
    pub closed spec fn url_spec(&self) -> Seq<char> {
        self.gateway_url@
    }

    pub closed spec fn from_state_version_spec(&self) -> u64 {
        self.from_state_version
    }

    pub closed spec fn limit_per_page_spec(&self) -> u32 {
        self.limit_per_page
    }

    pub closed spec fn buffer_capacity_spec(&self) -> u64 {
        self.buffer_capacity
    }

    pub closed spec fn caught_up_timeout_ms_spec(&self) -> u64 {
        self.caught_up_timeout_ms
    }

    /// A source on the public mainnet gateway, from state version 1, with
    /// pages of 100, a buffer of 10000 and a 500 ms wait when caught up.
    pub fn new() -> (r: Self)
        ensures
            r.url_spec() == PUBLIC_MAINNET_GATEWAY_URL@,
            r.from_state_version_spec() == DEFAULT_STATE_VERSION,
            r.limit_per_page_spec() == DEFAULT_PAGE_SIZE,
            r.buffer_capacity_spec() == DEFAULT_BUFFER_CAPACITY,
            r.caught_up_timeout_ms_spec() == DEFAULT_CAUGHT_UP_TIMEOUT_MS,
    {
        GatewayTransactionStream {
            gateway_url: PUBLIC_MAINNET_GATEWAY_URL.to_owned(),
            from_state_version: DEFAULT_STATE_VERSION,
            limit_per_page: DEFAULT_PAGE_SIZE,
            buffer_capacity: DEFAULT_BUFFER_CAPACITY,
            caught_up_timeout_ms: DEFAULT_CAUGHT_UP_TIMEOUT_MS,
        }
    }

    /// Sets the state version to start from; that transaction is included.
    pub fn from_state_version(self, from_state_version: u64) -> (r: Self)
        ensures
            r.url_spec() == self.url_spec(),
            r.from_state_version_spec() == from_state_version,
            r.limit_per_page_spec() == self.limit_per_page_spec(),
            r.buffer_capacity_spec() == self.buffer_capacity_spec(),
            r.caught_up_timeout_ms_spec() == self.caught_up_timeout_ms_spec(),
    {
        GatewayTransactionStream { from_state_version, ..self }
    }

    /// Sets the URL of the gateway to fetch from.
    pub fn gateway_url(self, gateway_url: String) -> (r: Self)
        ensures
            r.url_spec() == gateway_url@,
            r.from_state_version_spec() == self.from_state_version_spec(),
            r.limit_per_page_spec() == self.limit_per_page_spec(),
            r.buffer_capacity_spec() == self.buffer_capacity_spec(),
            r.caught_up_timeout_ms_spec() == self.caught_up_timeout_ms_spec(),
    {
        GatewayTransactionStream { gateway_url, ..self }
    }

    /// Sets the number of transactions fetched per page.
    pub fn limit_per_page(self, limit_per_page: u32) -> (r: Self)
        ensures
            r.url_spec() == self.url_spec(),
            r.from_state_version_spec() == self.from_state_version_spec(),
            r.limit_per_page_spec() == limit_per_page,
            r.buffer_capacity_spec() == self.buffer_capacity_spec(),
            r.caught_up_timeout_ms_spec() == self.caught_up_timeout_ms_spec(),
    {
        GatewayTransactionStream { limit_per_page, ..self }
    }

    /// Sets how many transactions may wait in the channel before the source
    /// blocks.
    pub fn buffer_capacity(self, buffer_capacity: u64) -> (r: Self)
        ensures
            r.url_spec() == self.url_spec(),
            r.from_state_version_spec() == self.from_state_version_spec(),
            r.limit_per_page_spec() == self.limit_per_page_spec(),
            r.buffer_capacity_spec() == buffer_capacity,
            r.caught_up_timeout_ms_spec() == self.caught_up_timeout_ms_spec(),
    {
        GatewayTransactionStream { buffer_capacity, ..self }
    }

    /// Sets the wait after a poll that found nothing new.
    pub fn caught_up_timeout_ms(self, caught_up_timeout_ms: u64) -> (r: Self)
        ensures
            r.url_spec() == self.url_spec(),
            r.from_state_version_spec() == self.from_state_version_spec(),
            r.limit_per_page_spec() == self.limit_per_page_spec(),
            r.buffer_capacity_spec() == self.buffer_capacity_spec(),
            r.caught_up_timeout_ms_spec() == caught_up_timeout_ms,
    {
        GatewayTransactionStream { caught_up_timeout_ms, ..self }
    }

    /// The URL of the gateway.
    pub fn url(&self) -> (r: &String)
        ensures
            r@ == self.url_spec(),
    {
        &self.gateway_url
    }

    /// The first state version fetched.
    pub fn start_state_version(&self) -> (r: u64)
        ensures
            r == self.from_state_version_spec(),
    {
        self.from_state_version
    }

    /// The number of transactions per page.
    pub fn page_size(&self) -> (r: u32)
        ensures
            r == self.limit_per_page_spec(),
    {
        self.limit_per_page
    }

    /// The capacity of the channel to the processor.
    pub fn channel_capacity(&self) -> (r: u64)
        ensures
            r == self.buffer_capacity_spec(),
    {
        self.buffer_capacity
    }

    /// How long the source waits after a page of `page_len` transactions:
    /// the caught-up timeout after an empty page, no wait otherwise.
    pub fn wait_after_page_ms(&self, page_len: usize) -> (r: Option<u64>)
        ensures
            page_len == 0 ==> r == Some(self.caught_up_timeout_ms_spec()),
            page_len > 0 ==> r is None,
    {
        if page_len == 0 {
            Some(self.caught_up_timeout_ms)
        } else {
            None
        }
    }
}

impl Default for GatewayTransactionStream {
    /// The same settings as [`GatewayTransactionStream::new`].
    fn default() -> (r: Self)
        ensures
            r.url_spec() == PUBLIC_MAINNET_GATEWAY_URL@,
            r.from_state_version_spec() == DEFAULT_STATE_VERSION,
            r.limit_per_page_spec() == DEFAULT_PAGE_SIZE,
            r.buffer_capacity_spec() == DEFAULT_BUFFER_CAPACITY,
            r.caught_up_timeout_ms_spec() == DEFAULT_CAUGHT_UP_TIMEOUT_MS,
    {
        GatewayTransactionStream::new()
    }
}

} // verus!
