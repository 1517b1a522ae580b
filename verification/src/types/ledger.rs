use crate::util::text_utils::texts;
use vstd::prelude::*;

verus! {

/// A balance as the bank module reports it: the amount is the text that the ledger sent.
#[derive(Clone, Debug, PartialEq, Eq)]
pub struct LedgerCoin {
    /// The denom in which the amount is counted.
    pub denom: String,
    /// The amount, written in base ten.
    pub amount: String,
}

/// One page of the attributes of an account, as the attribute module reports them.
#[derive(Clone, Debug, PartialEq, Eq)]
pub struct AttributePage {
    /// The names of the attributes on this page. What the attributes hold plays no part.
    pub names: Vec<String>,
    /// The key at which the next page starts. The ledger sends none, or an empty one, with
    /// the last page.
    pub next_key: Option<Vec<u8>>,
}

/// What an [AttributePage] is in contracts.
pub struct AttributePageView {
    pub names: Seq<Seq<char>>,
    pub next_key: Option<Seq<u8>>,
}

impl View for AttributePage {
    type V = AttributePageView;

    open spec fn view(&self) -> AttributePageView {
        AttributePageView {
            names: texts(self.names@),
            next_key: match self.next_key {
                Some(key) => Some(key@),
                None => None,
            },
        }
    }
}

/// Which page of a listing to send: what the ledger reads of a paged query.
#[derive(Clone, Debug, PartialEq, Eq)]
pub struct PageRequest {
    /// The key at which the page starts, as the page before it gave it.
    pub key: Vec<u8>,
    /// The number of entries to skip. Used only without a key.
    pub offset: u64,
    /// The greatest number of entries on the page.
    pub limit: u64,
    /// Whether the ledger is to count all entries.
    pub count_total: bool,
    /// Whether the listing runs backwards.
    pub reverse: bool,
}

/// An account as the ledger packs it: the URL of its type, and its fields as protobuf bytes.
#[derive(Clone, Debug, PartialEq, Eq)]
pub struct PackedAccount {
    /// The URL that names the type of the packed account.
    pub type_url: String,
    /// The fields of the account in protobuf encoding.
    pub value: Vec<u8>,
}

/// What a [PageRequest] is in contracts.
pub struct PageRequestView {
    pub key: Seq<u8>,
    pub offset: u64,
    pub limit: u64,
    pub count_total: bool,
    pub reverse: bool,
}

impl View for PageRequest {
    type V = PageRequestView;

    open spec fn view(&self) -> PageRequestView {
        PageRequestView {
            key: self.key@,
            offset: self.offset,
            limit: self.limit,
            count_total: self.count_total,
            reverse: self.reverse,
        }
    }
}

/// What a list of pages holds, page by page.
pub open spec fn page_views(pages: Seq<AttributePage>) -> Seq<AttributePageView> {
    pages.map_values(|page: AttributePage| page@)
}

/// What the ledger is to be asked next, before an execution message can be decided.
#[derive(Clone, Debug, PartialEq, Eq)]
pub enum LedgerQuestion {
    /// Nothing: the message can be decided on the answers at hand.
    Nothing,
    /// The balance of the sender in a denom.
    Balance {
        /// The denom in which the balance is asked for.
        denom: String,
    },
    /// A page of the attributes of the sender.
    Attributes {
        /// The page that is asked for. The first page is asked for without a request.
        page: Option<PageRequest>,
    },
    /// The marker of a denom.
    Marker {
        /// The denom whose marker is asked for.
        denom: String,
    },
}

/// What a [LedgerQuestion] is in contracts.
pub enum LedgerQuestionView {
    Nothing,
    Balance { denom: Seq<char> },
    Attributes { page: Option<PageRequestView> },
    Marker { denom: Seq<char> },
}

impl View for LedgerQuestion {
    type V = LedgerQuestionView;

    open spec fn view(&self) -> LedgerQuestionView {
        match self {
            LedgerQuestion::Nothing => LedgerQuestionView::Nothing,
            LedgerQuestion::Balance { denom } => LedgerQuestionView::Balance { denom: denom@ },
            LedgerQuestion::Attributes { page: None } => LedgerQuestionView::Attributes {
                page: None,
            },
            LedgerQuestion::Attributes { page: Some(request) } => LedgerQuestionView::Attributes {
                page: Some(request@),
            },
            LedgerQuestion::Marker { denom } => LedgerQuestionView::Marker { denom: denom@ },
        }
    }
}

/// What the ledger answered so far to the questions of an execution message.
#[derive(Clone, Debug, PartialEq, Eq)]
pub struct LedgerAnswers {
    /// Whether the balance of the sender was asked for.
    pub balance_asked: bool,
    /// The balance of the sender in the denom asked for, where the sender holds any.
    pub balance: Option<LedgerCoin>,
    /// The pages of the sender's attributes, in the order in which they were read.
    pub attribute_pages: Vec<AttributePage>,
    /// Whether the marker was asked for.
    pub marker_asked: bool,
    /// The packed account of the marker asked for, where the ledger knows the marker.
    pub marker: Option<PackedAccount>,
}

impl LedgerAnswers {
    /// The answers of a ledger that was asked nothing.
    pub fn new() -> (answers: Self)
        ensures
            !answers.balance_asked,
            answers.balance is None,
            answers.attribute_pages@.len() == 0,
            !answers.marker_asked,
            answers.marker is None,
    {
        Self {
            balance_asked: false,
            balance: None,
            attribute_pages: Vec::new(),
            marker_asked: false,
            marker: None,
        }
    }

    /// The answers with the answer to the question for the balance.
    ///
    /// # Parameters
    /// * `balance` The coin that the sender holds of the denom asked for, where the sender
    /// holds any.
    pub fn with_balance(self, balance: Option<LedgerCoin>) -> (answers: Self)
        ensures
            answers == (Self { balance_asked: true, balance, ..self }),
    {
        Self { balance_asked: true, balance, ..self }
    }

    /// The answers with one more page of the attributes of the sender.
    ///
    /// # Parameters
    /// * `page` The page that the ledger sent.
    pub fn with_attribute_page(self, page: AttributePage) -> (answers: Self)
        ensures
            answers == (Self { attribute_pages: answers.attribute_pages, ..self }),
            answers.attribute_pages@ == self.attribute_pages@.push(page),
    {
        let mut answers = self;
        answers.attribute_pages.push(page);
        answers
    }

    /// The answers with the answer to the question for the marker.
    ///
    /// # Parameters
    /// * `marker` The packed account of the marker, where the ledger knows the marker.
    pub fn with_marker(self, marker: Option<PackedAccount>) -> (answers: Self)
        ensures
            answers == (Self { marker_asked: true, marker, ..self }),
    {
        Self { marker_asked: true, marker, ..self }
    }
}

} // verus!
