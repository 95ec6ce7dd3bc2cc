//! Types shared by payments and subscriptions: payment methods, plans,
//! the envelope of an API answer, and paging.

use vstd::prelude::*;
use vstd::string::*;
use crate::money::Amount;

verus! {

/// The view of an optional string.
pub open spec fn opt_view(o: Option<String>) -> Option<Seq<char>> {
    match o {
        Some(s) => Some(s@),
        None => None,
    }
}

/// The view of an optional borrowed string.
pub open spec fn opt_ref_view(o: Option<&String>) -> Option<Seq<char>> {
    match o {
        Some(s) => Some(s@),
        None => None,
    }
}

/// The view of an optional string slice.
pub open spec fn opt_str_view(o: Option<&str>) -> Option<Seq<char>> {
    match o {
        Some(s) => Some(s@),
        None => None,
    }
}

/// How a payment is made.
#[derive(Clone, Copy, Debug, PartialEq, Eq, Structural)]
pub enum PaymentMethod {
    Card,
    Eft,
    OneVoucher,
    ScanToPay,
}

impl PaymentMethod {
    /// The gateway's name for the method.
    pub open spec fn spec_label(self) -> Seq<char> {
        match self {
            PaymentMethod::Card => "CARD"@,
            PaymentMethod::Eft => "EFT"@,
            PaymentMethod::OneVoucher => "1VOUCHER"@,
            PaymentMethod::ScanToPay => "SCAN_TO_PAY"@,
        }
    }

    /// The gateway's name for the method: `CARD`, `EFT`, `1VOUCHER` or
    /// `SCAN_TO_PAY`.
    pub fn label(&self) -> (s: &'static str)
        ensures
            s@ == self.spec_label(),
    {
        match self {
            PaymentMethod::Card => "CARD",
            PaymentMethod::Eft => "EFT",
            PaymentMethod::OneVoucher => "1VOUCHER",
            PaymentMethod::ScanToPay => "SCAN_TO_PAY",
        }
    }

    /// [`PaymentMethod::label`] as an owned string.
    pub fn to_string(&self) -> (s: String)
        ensures
            s@ == self.spec_label(),
    {
        String::from_str(self.label())
    }

    /// Whether the gateway can charge this method again without the payer:
    /// only a card can be tokenised.
    pub fn supports_tokenisation(&self) -> (b: bool)
        ensures
            b == (*self == PaymentMethod::Card),
    {
        match self {
            PaymentMethod::Card => true,
            _ => false,
        }
    }
}

/// A subscription plan: a price and a length in days.
#[derive(Clone, Copy, Debug, PartialEq, Eq, Structural)]
pub enum SubscriptionPlan {
    Monthly,
    Annual,
}

impl SubscriptionPlan {
    /// Days in one period of the plan.
    pub open spec fn spec_duration_days(self) -> int {
        match self {
            SubscriptionPlan::Monthly => 30,
            SubscriptionPlan::Annual => 365,
        }
    }

    /// Price of one period of the plan.
    pub open spec fn spec_price(self) -> Amount {
        match self {
            SubscriptionPlan::Monthly => Amount { mantissa: 10_000, scale: 2 },
            SubscriptionPlan::Annual => Amount { mantissa: 100_000, scale: 2 },
        }
    }

    /// The name of the plan.
    pub open spec fn spec_label(self) -> Seq<char> {
        match self {
            SubscriptionPlan::Monthly => "monthly"@,
            SubscriptionPlan::Annual => "annual"@,
        }
    }

    /// Price of one period: 100.00 a month, 1000.00 a year.
    pub fn price(&self) -> (p: Amount)
        ensures
            p == self.spec_price(),
            p.wf(),
    {
        match self {
            SubscriptionPlan::Monthly => Amount { mantissa: 10_000, scale: 2 },
            SubscriptionPlan::Annual => Amount { mantissa: 100_000, scale: 2 },
        }
    }

    /// Days in one period: 30 for a month, 365 for a year.
    pub fn duration_days(&self) -> (d: i64)
        ensures
            d == self.spec_duration_days(),
            d == 30 || d == 365,
    {
        match self {
            SubscriptionPlan::Monthly => 30,
            SubscriptionPlan::Annual => 365,
        }
    }

    /// The name of the plan: `monthly` or `annual`.
    pub fn to_string(&self) -> (s: String)
        ensures
            s@ == self.spec_label(),
    {
        match self {
            SubscriptionPlan::Monthly => String::from_str("monthly"),
            SubscriptionPlan::Annual => String::from_str("annual"),
        }
    }
}

/// The envelope of an answer to an API request: either data, with an
/// optional message, or an error.
#[derive(Debug)]
pub struct ApiResponse<T> {
    pub success: bool,
    pub data: Option<T>,
    pub message: Option<String>,
    pub error: Option<String>,
}

impl<T> ApiResponse<T> {
    pub fn success(data: T) -> (r: Self)
        ensures
            r.success,
            r.data == Some(data),
            r.message.is_none(),
            r.error.is_none(),
    {
        Self { success: true, data: Some(data), message: None, error: None }
    }

    pub fn success_with_message(data: T, message: String) -> (r: Self)
        ensures
            r.success,
            r.data == Some(data),
            r.message == Some(message),
            r.error.is_none(),
    {
        Self { success: true, data: Some(data), message: Some(message), error: None }
    }

    pub fn error(error: String) -> (r: Self)
        ensures
            !r.success,
            r.data.is_none(),
            r.message.is_none(),
            r.error == Some(error),
    {
        Self { success: false, data: None, message: None, error: Some(error) }
    }
}

/// Which page of a listing is asked for.
#[derive(Clone, Copy, Debug, PartialEq, Eq, Structural)]
pub struct PaginationQuery {
    pub page: Option<u32>,
    pub limit: Option<u32>,
}

impl Default for PaginationQuery {
    fn default() -> (q: Self)
        ensures
            q.page == Some(1u32),
            q.limit == Some(20u32),
    {
        Self { page: Some(1), limit: Some(20) }
    }
}

/// One page of a listing.
#[derive(Debug)]
pub struct PaginatedResponse<T> {
    pub data: Vec<T>,
    pub total: u32,
    pub page: u32,
    pub limit: u32,
    pub total_pages: u32,
}

/// Pages needed for `total` items at `limit` items a page.
pub open spec fn spec_total_pages(total: int, limit: int) -> int {
    (total + limit - 1) / limit
}

/// The page asked for, 1 when none is named.
pub open spec fn spec_page(q: PaginationQuery) -> u32 {
    match q.page {
        Some(p) => p,
        None => 1,
    }
}

/// The page size asked for, 20 when none is named.
pub open spec fn spec_limit(q: PaginationQuery) -> u32 {
    match q.limit {
        Some(l) => l,
        None => 20,
    }
}

/// Index of the first item of the page asked for.
pub open spec fn spec_offset(q: PaginationQuery) -> int {
    (spec_page(q) - 1) * spec_limit(q)
}

impl PaginationQuery {
    /// The page asked for, 1 when none is named.
    pub fn page_or_default(&self) -> (p: u32)
        ensures
            p == spec_page(*self),
    {
        match self.page {
            Some(p) => p,
            None => 1,
        }
    }

    /// The page size asked for, 20 when none is named.
    pub fn limit_or_default(&self) -> (l: u32)
        ensures
            l == spec_limit(*self),
    {
        match self.limit {
            Some(l) => l,
            None => 20,
        }
    }

    /// Index of the first item of the page, or `None` for page 0, which
    /// does not exist.
    pub fn offset(&self) -> (o: Option<u64>)
        ensures
            spec_page(*self) >= 1 ==> o.is_some() && o.unwrap() == spec_offset(*self),
            spec_page(*self) == 0 ==> o.is_none(),
            o.is_some() ==> o.unwrap() <= 0xFFFF_FFFE_0000_0001,
    {
        let page = self.page_or_default();
        let limit = self.limit_or_default();
        if page == 0 {
            None
        } else {
            assert(0 <= (page - 1) * limit <= 0xFFFF_FFFF * 0xFFFF_FFFF) by (nonlinear_arith)
                requires
                    0 <= page - 1 <= 0xFFFF_FFFF,
                    0 <= limit <= 0xFFFF_FFFF,
            ;
            Some(((page - 1) as u64) * (limit as u64))
        }
    }
}

impl<T> PaginatedResponse<T> {
    /// The page holding `data`, out of `total` items at `limit` a page.
    /// `None` when `limit` is 0, for which no page count exists.
    pub fn new(data: Vec<T>, total: u32, page: u32, limit: u32) -> (r: Option<Self>)
        ensures
            limit == 0 ==> r.is_none(),
            limit > 0 ==> r.is_some() && r.unwrap().data == data && r.unwrap().total == total
                && r.unwrap().page == page && r.unwrap().limit == limit
                && r.unwrap().total_pages == spec_total_pages(total as int, limit as int),
    {
        if limit == 0 {
            None
        } else {
            let pages: u64 = ((total as u64) + (limit as u64) - 1) / (limit as u64);
            assert(pages <= total) by (nonlinear_arith)
                requires
                    pages == ((total as int) + (limit as int) - 1) / (limit as int),
                    limit >= 1,
                    total >= 0,
            ;
            Some(Self { data, total, page, limit, total_pages: pages as u32 })
        }
    }
}

} // verus!
