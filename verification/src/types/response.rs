use crate::store::contract_state::{ContractStateV1, ContractStateV1View};
use vstd::prelude::*;

verus! {

/// A name of the name module, bound to an address.
#[derive(Clone, Debug, PartialEq, Eq)]
pub struct NameRecord {
    /// The bound name.
    pub name: String,
    /// The bech32 address to which the name points.
    pub address: String,
    /// Whether only the owner of the name may bind names below it.
    pub restricted: bool,
}

/// What a [NameRecord] is in contracts.
pub struct NameRecordView {
    pub name: Seq<char>,
    pub address: Seq<char>,
    pub restricted: bool,
}

impl View for NameRecord {
    type V = NameRecordView;

    open spec fn view(&self) -> NameRecordView {
        NameRecordView { name: self.name@, address: self.address@, restricted: self.restricted }
    }
}

/// A request to bind a name below a parent name.
#[derive(Clone, Debug, PartialEq, Eq)]
pub struct MsgBindNameRequest {
    /// The record to be created: the new name, without its parent.
    pub record: Option<NameRecord>,
    /// The record below which the name is bound, where the name has a parent.
    pub parent: Option<NameRecord>,
}

/// What a [MsgBindNameRequest] is in contracts.
pub struct MsgBindNameRequestView {
    pub record: Option<NameRecordView>,
    pub parent: Option<NameRecordView>,
}

impl View for MsgBindNameRequest {
    type V = MsgBindNameRequestView;

    open spec fn view(&self) -> MsgBindNameRequestView {
        MsgBindNameRequestView {
            record: match self.record {
                Some(record) => Some(record@),
                None => None,
            },
            parent: match self.parent {
                Some(parent) => Some(parent@),
                None => None,
            },
        }
    }
}

/// One settlement instruction for the ledger. A response lists them in the order in which
/// the ledger is to carry them out.
#[derive(Clone, Debug, PartialEq, Eq)]
pub enum Instruction {
    /// Moves coin of a restricted marker from one account to another, on the authority of
    /// the administrator.
    Transfer {
        /// The account on whose authority the coin moves.
        administrator: String,
        /// The denom of the coin that moves.
        denom: String,
        /// The amount that moves.
        amount: u128,
        /// The account that gives the coin.
        from_address: String,
        /// The account that gets the coin.
        to_address: String,
    },
    /// Creates new coin of a marker, held by the marker.
    Mint {
        /// The account on whose authority the coin is created.
        administrator: String,
        /// The denom of the coin that is created.
        denom: String,
        /// The amount that is created.
        amount: u128,
    },
    /// Releases coin that a marker holds to an account.
    Withdraw {
        /// The account on whose authority the coin is released.
        administrator: String,
        /// The denom of the marker that releases the coin, which is the denom of the coin.
        denom: String,
        /// The amount that is released.
        amount: u128,
        /// The account that gets the coin.
        to_address: String,
    },
    /// Destroys coin that a marker holds.
    Burn {
        /// The account on whose authority the coin is destroyed.
        administrator: String,
        /// The denom of the coin that is destroyed.
        denom: String,
        /// The amount that is destroyed.
        amount: u128,
    },
    /// Binds a name to an address.
    BindName(MsgBindNameRequest),
}

/// What an [Instruction] is in contracts.
pub enum InstructionView {
    Transfer {
        administrator: Seq<char>,
        denom: Seq<char>,
        amount: u128,
        from_address: Seq<char>,
        to_address: Seq<char>,
    },
    Mint { administrator: Seq<char>, denom: Seq<char>, amount: u128 },
    Withdraw { administrator: Seq<char>, denom: Seq<char>, amount: u128, to_address: Seq<char> },
    Burn { administrator: Seq<char>, denom: Seq<char>, amount: u128 },
    BindName(MsgBindNameRequestView),
}

impl View for Instruction {
    type V = InstructionView;

    open spec fn view(&self) -> InstructionView {
        match self {
            Instruction::Transfer { administrator, denom, amount, from_address, to_address } => {
                InstructionView::Transfer {
                    administrator: administrator@,
                    denom: denom@,
                    amount: *amount,
                    from_address: from_address@,
                    to_address: to_address@,
                }
            },
            Instruction::Mint { administrator, denom, amount } => InstructionView::Mint {
                administrator: administrator@,
                denom: denom@,
                amount: *amount,
            },
            Instruction::Withdraw { administrator, denom, amount, to_address } => {
                InstructionView::Withdraw {
                    administrator: administrator@,
                    denom: denom@,
                    amount: *amount,
                    to_address: to_address@,
                }
            },
            Instruction::Burn { administrator, denom, amount } => InstructionView::Burn {
                administrator: administrator@,
                denom: denom@,
                amount: *amount,
            },
            Instruction::BindName(request) => InstructionView::BindName(request@),
        }
    }
}

/// One entry of the descriptive log of a response: a key and its value.
#[derive(Clone, Debug, PartialEq, Eq)]
pub struct Attribute {
    /// The key of the entry.
    pub key: String,
    /// The value of the entry.
    pub value: String,
}

/// What an [Attribute] is in contracts.
pub struct AttributeView {
    pub key: Seq<char>,
    pub value: Seq<char>,
}

impl View for Attribute {
    type V = AttributeView;

    open spec fn view(&self) -> AttributeView {
        AttributeView { key: self.key@, value: self.value@ }
    }
}

impl Attribute {
    /// Constructs a new instance of this struct.
    ///
    /// # Parameters
    /// * `key` The key of the entry.
    /// * `value` The value of the entry.
    pub fn new(key: &str, value: &str) -> (attribute: Self)
        ensures
            attribute@ == pair(key@, value@),
    {
        Self { key: String::from_str(key), value: String::from_str(value) }
    }
}

/// The entry of the log with this key and this value.
pub open spec fn pair(key: Seq<char>, value: Seq<char>) -> AttributeView {
    AttributeView { key, value }
}

/// What an operation hands back on success: the instructions for the ledger, in order, the
/// descriptive log, and a snapshot of the configuration where the operation gives one.
#[derive(Clone, Debug, PartialEq, Eq)]
pub struct Response {
    /// The settlement instructions, in the order in which they are to be carried out.
    pub messages: Vec<Instruction>,
    /// The descriptive log, in the order in which the entries were added.
    pub attributes: Vec<Attribute>,
    /// The configuration after the operation, where the operation reports it.
    pub data: Option<ContractStateV1>,
}

/// What a [Response] is in contracts.
pub struct ResponseView {
    pub messages: Seq<InstructionView>,
    pub attributes: Seq<AttributeView>,
    pub data: Option<ContractStateV1View>,
}

impl View for Response {
    type V = ResponseView;

    open spec fn view(&self) -> ResponseView {
        ResponseView {
            messages: self.messages@.map_values(|message: Instruction| message@),
            attributes: self.attributes@.map_values(|attribute: Attribute| attribute@),
            data: match self.data {
                Some(state) => Some(state@),
                None => None,
            },
        }
    }
}

impl Response {
    /// A response without instructions, log entries or snapshot.
    pub fn new() -> (response: Self)
        ensures
            response@ == (ResponseView {
                messages: Seq::empty(),
                attributes: Seq::empty(),
                data: None,
            }),
    {
        let response = Self { messages: Vec::new(), attributes: Vec::new(), data: None };
        assert(response@.messages =~= Seq::empty());
        assert(response@.attributes =~= Seq::empty());
        response
    }

    /// Adds an instruction after those that the response holds.
    pub fn add_message(self, message: Instruction) -> (response: Self)
        ensures
            response@ == (ResponseView {
                messages: self@.messages.push(message@),
                attributes: self@.attributes,
                data: self@.data,
            }),
    {
        let mut response = self;
        response.messages.push(message);
        assert(response@.messages =~= self@.messages.push(message@));
        response
    }

    /// Adds an entry to the end of the log.
    pub fn add_attribute(self, key: &str, value: &str) -> (response: Self)
        ensures
            response@ == (ResponseView {
                messages: self@.messages,
                attributes: self@.attributes.push(pair(key@, value@)),
                data: self@.data,
            }),
    {
        let mut response = self;
        response.attributes.push(Attribute::new(key, value));
        assert(response@.attributes =~= self@.attributes.push(pair(key@, value@)));
        response
    }

    /// Sets the snapshot of the configuration that the response reports.
    pub fn set_data(self, state: ContractStateV1) -> (response: Self)
        ensures
            response@ == (ResponseView {
                messages: self@.messages,
                attributes: self@.attributes,
                data: Some(state@),
            }),
    {
        let mut response = self;
        response.data = Some(state);
        response
    }
}

/// The value of the first entry of a log that has this key, where there is one.
pub open spec fn first_value(attributes: Seq<AttributeView>, key: Seq<char>) -> Option<Seq<char>>
    decreases attributes.len(),
{
    if attributes.len() == 0 {
        None
    } else if attributes[0].key == key {
        Some(attributes[0].value)
    } else {
        first_value(attributes.drop_first(), key)
    }
}

/// A trait for what carries a descriptive log, to look up the entries of the log by key.
pub trait AttributeExtractor {
    /// The value that the log holds for a key, where it holds one.
    spec fn attribute(&self, key: Seq<char>) -> Option<Seq<char>>;

    /// The value that the log holds for a key, where it may hold none.
    fn find_attribute(&self, key: &str) -> (value: Option<&str>)
        ensures
            match self.attribute(key@) {
                Some(held) => value matches Some(found) && found@ == held,
                None => value is None,
            },
    ;

    /// The value that the log holds for a key, of a log that is known to hold one.
    fn expect_attribute(&self, key: &str) -> (value: &str)
        requires
            self.attribute(key@) is Some,
        ensures
            self.attribute(key@) == Some(value@),
    ;
}

impl AttributeExtractor for Response {
    /// The value of the first entry with the key.
    open spec fn attribute(&self, key: Seq<char>) -> Option<Seq<char>> {
        first_value(self@.attributes, key)
    }

    fn find_attribute(&self, key: &str) -> (value: Option<&str>) {
        let wanted = String::from_str(key);
        let mut index: usize = 0;
        proof {
            assert(self@.attributes.skip(0) =~= self@.attributes);
        }
        while index < self.attributes.len()
            invariant
                index <= self.attributes@.len(),
                wanted@ == key@,
                self@.attributes.len() == self.attributes@.len(),
                first_value(self@.attributes, key@) == first_value(
                    self@.attributes.skip(index as int),
                    key@,
                ),
            decreases self.attributes@.len() - index,
        {
            proof {
                let rest = self@.attributes.skip(index as int);
                assert(rest[0] == self.attributes@[index as int]@);
                assert(rest.drop_first() =~= self@.attributes.skip(index + 1));
            }
            if self.attributes[index].key == wanted {
                return Some(self.attributes[index].value.as_str());
            }
            index = index + 1;
        }
        None
    }

    fn expect_attribute(&self, key: &str) -> (value: &str) {
        match self.find_attribute(key) {
            Some(value) => value,
            None => vstd::pervasive::unreached(),
        }
    }
}

} // verus!
