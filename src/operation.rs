use vstd::prelude::*;

use crate::attribute::DecodeError;
use crate::record::{all_decode, normalize_record, normalized, pairs_view, NormalizedRecord, Record};

verus! {

/// A failure that the store reported, with the store's message.
#[derive(Debug, Clone, PartialEq, Eq)]
pub struct StoreError {
    pub message: String,
}

/// Why an operation produced no result.
#[derive(Debug, Clone, PartialEq, Eq)]
pub enum OperationError {
    /// The store reported a failure.
    Store(StoreError),
    /// A binary payload in a record read back was not well-formed UTF-8.
    Decode(DecodeError),
}

/// What listing the tables reports.
#[derive(Debug, Clone, PartialEq, Eq)]
pub enum TableListing {
    /// The names of the tables, in the store's order; never empty.
    Tables(Vec<String>),
    /// The store holds no tables.
    NoTables,
}

/// Decides what listing the tables reports from the store's response: the
/// store's failure as it came, the names the store gave, or that there are no
/// tables where it gave none.
pub fn list_tables_outcome(response: Result<Option<Vec<String>>, StoreError>) -> (r: Result<
    TableListing,
    StoreError,
>)
    ensures
        match response {
            Err(e) => r == Err::<TableListing, StoreError>(e),
            Ok(None) => r == Ok::<TableListing, StoreError>(TableListing::NoTables),
            Ok(Some(names)) => if names.len() == 0 {
                r == Ok::<TableListing, StoreError>(TableListing::NoTables)
            } else {
                r == Ok::<TableListing, StoreError>(TableListing::Tables(names))
            },
        },
{
    match response {
        Err(e) => Err(e),
        Ok(None) => Ok(TableListing::NoTables),
        Ok(Some(names)) => {
            if names.len() == 0 {
                Ok(TableListing::NoTables)
            } else {
                Ok(TableListing::Tables(names))
            }
        },
    }
}

/// One attribute of a table's schema: its name and its type tag (`S`, `N`,
/// `B`).
#[derive(Debug, Clone, PartialEq, Eq)]
pub struct AttributeDefinition {
    pub attribute_name: String,
    pub attribute_type: String,
}

/// The part of a table's description that this library reads.
#[derive(Debug, Clone, PartialEq, Eq)]
pub struct TableDescription {
    pub attribute_definitions: Option<Vec<AttributeDefinition>>,
}

/// What describing a table reports.
#[derive(Debug, Clone, PartialEq, Eq)]
pub enum TableSchema {
    /// The table's attribute definitions, in the store's order.
    Attributes(Vec<AttributeDefinition>),
    /// The description holds no attribute definitions.
    NoAttributeDefinitions,
    /// The store gave no description of the table.
    NoTableDescription,
}

/// Decides what describing a table reports from the store's response: the
/// store's failure as it came, or the attribute definitions exactly as the
/// store gave them, in its order; everything else in the description is
/// dropped.
pub fn describe_table_outcome(response: Result<Option<TableDescription>, StoreError>) -> (r: Result<
    TableSchema,
    StoreError,
>)
    ensures
        match response {
            Err(e) => r == Err::<TableSchema, StoreError>(e),
            Ok(None) => r == Ok::<TableSchema, StoreError>(TableSchema::NoTableDescription),
            Ok(Some(d)) => match d.attribute_definitions {
                None => r == Ok::<TableSchema, StoreError>(TableSchema::NoAttributeDefinitions),
                Some(defs) => r == Ok::<TableSchema, StoreError>(TableSchema::Attributes(defs)),
            },
        },
{
    match response {
        Err(e) => Err(e),
        Ok(None) => Ok(TableSchema::NoTableDescription),
        Ok(Some(d)) => match d.attribute_definitions {
            None => Ok(TableSchema::NoAttributeDefinitions),
            Some(defs) => Ok(TableSchema::Attributes(defs)),
        },
    }
}

/// What looking up one record reports.
#[derive(Debug, Clone, PartialEq, Eq)]
pub enum ItemLookup {
    /// The record was found; this is its text.
    Found(NormalizedRecord),
    /// No record has the key. This is no failure.
    NotFound,
}

impl ItemLookup {
    /// The record's text, which is empty where no record was found.
    pub fn record(self) -> (r: NormalizedRecord)
        ensures
            match self {
                ItemLookup::Found(rec) => r == rec,
                ItemLookup::NotFound => r@.len() == 0,
            },
    {
        match self {
            ItemLookup::Found(rec) => rec,
            ItemLookup::NotFound => Vec::new(),
        }
    }

    /// Whether a record was found.
    pub fn is_found(&self) -> (r: bool)
        ensures
            r == (self is Found),
    {
        match self {
            ItemLookup::Found(_) => true,
            ItemLookup::NotFound => false,
        }
    }
}

/// Decides what looking up one record reports from the store's response: the
/// store's failure as it came, that no record was found, or the found record
/// read as text, which fails as a whole where a binary payload in it is not
/// well-formed UTF-8.
pub fn get_item_outcome(response: Result<Option<Record>, StoreError>) -> (r: Result<
    ItemLookup,
    OperationError,
>)
    ensures
        response matches Err(e) ==> r == Err::<ItemLookup, OperationError>(
            OperationError::Store(e),
        ),
        response is Ok && response->Ok_0 is None ==> r == Ok::<ItemLookup, OperationError>(
            ItemLookup::NotFound,
        ),
        response matches Ok(Some(rec)) ==> {
            &&& r is Ok <==> all_decode(rec@)
            &&& !all_decode(rec@) ==> r == Err::<ItemLookup, OperationError>(
                OperationError::Decode(DecodeError),
            )
            &&& r matches Ok(lookup) ==> (lookup matches ItemLookup::Found(out) && pairs_view(
                out@,
            ) == normalized(rec@))
        },
{
    match response {
        Err(e) => Err(OperationError::Store(e)),
        Ok(None) => Ok(ItemLookup::NotFound),
        Ok(Some(rec)) => match normalize_record(&rec) {
            Ok(out) => Ok(ItemLookup::Found(out)),
            Err(e) => Err(OperationError::Decode(e)),
        },
    }
}

/// Whether every record of a sequence reads as text.
pub open spec fn all_records_decode(items: Seq<Record>) -> bool {
    forall|i: int| 0 <= i < items.len() ==> all_decode(#[trigger] items[i]@)
}

/// Decides what a query reports from the store's response: the store's
/// failure as it came, or each matched record read as text, one for each in
/// the store's order (none where the store gave no items). A binary payload
/// that is not well-formed UTF-8 in any matched record fails the whole query.
pub fn query_outcome(response: Result<Option<Vec<Record>>, StoreError>) -> (r: Result<
    Vec<NormalizedRecord>,
    OperationError,
>)
    ensures
        response matches Err(e) ==> r == Err::<Vec<NormalizedRecord>, OperationError>(
            OperationError::Store(e),
        ),
        response is Ok && response->Ok_0 is None ==> (r matches Ok(outs) && outs@.len() == 0),
        response matches Ok(Some(items)) ==> {
            &&& r is Ok <==> all_records_decode(items@)
            &&& !all_records_decode(items@) ==> r == Err::<Vec<NormalizedRecord>, OperationError>(
                OperationError::Decode(DecodeError),
            )
            &&& r matches Ok(outs) ==> {
                &&& outs@.len() == items@.len()
                &&& forall|i: int|
                    0 <= i < outs@.len() ==> pairs_view(#[trigger] outs@[i]@) == normalized(
                        items@[i]@,
                    )
            }
        },
{
    match response {
        Err(e) => Err(OperationError::Store(e)),
        Ok(None) => Ok(Vec::new()),
        Ok(Some(items)) => {
            let mut outs: Vec<NormalizedRecord> = Vec::new();
            let mut i: usize = 0;
            while i < items.len()
                invariant
                    response == Ok::<Option<Vec<Record>>, StoreError>(Some(items)),
                    i <= items.len(),
                    outs@.len() == i,
                    forall|k: int| 0 <= k < i ==> all_decode(#[trigger] items@[k]@),
                    forall|k: int|
                        0 <= k < i ==> pairs_view(#[trigger] outs@[k]@) == normalized(items@[k]@),
                decreases items.len() - i,
            {
                match normalize_record(&items[i]) {
                    Ok(out) => outs.push(out),
                    Err(e) => {
                        assert(!all_decode(items@[i as int]@));
                        return Err(OperationError::Decode(e));
                    },
                }
                i = i + 1;
            }
            Ok(outs)
        },
    }
}

} // verus!
