//! Write concerns and their command-document form.
use vstd::prelude::*;

verus! {

/// How many nodes must acknowledge a write.
#[derive(Clone, Debug)]
pub enum Acknowledgment {
    Nodes(i32),
    Majority,
    Custom(String),
}

#[derive(Clone, Debug)]
pub struct WriteConcern {
    pub w: Option<Acknowledgment>,
    pub w_timeout_ms: Option<u32>,
    pub journal: Option<bool>,
}

/// A value of a command document.
#[derive(Clone, Debug)]
pub enum Bson {
    Int32(i32),
    Int64(i64),
    Boolean(bool),
    Str(String),
}

/// A command document: keys and values in order.
#[derive(Clone, Debug)]
pub struct Document {
    pub entries: Vec<(String, Bson)>,
}

pub enum BsonView {
    Int32(i32),
    Int64(i64),
    Boolean(bool),
    Str(Seq<char>),
}

impl View for Bson {
    type V = BsonView;

    open spec fn view(&self) -> BsonView {
        match self {
            Bson::Int32(n) => BsonView::Int32(*n),
            Bson::Int64(n) => BsonView::Int64(*n),
            Bson::Boolean(b) => BsonView::Boolean(*b),
            Bson::Str(s) => BsonView::Str(s@),
        }
    }
}

impl View for Document {
    type V = Seq<(Seq<char>, BsonView)>;

    open spec fn view(&self) -> Seq<(Seq<char>, BsonView)> {
        self.entries@.map_values(|e: (String, Bson)| (e.0@, e.1@))
    }
}

/// The entries of a write concern's document: `w`, `wtimeout` and `j`, each
/// only when set.
pub open spec fn write_concern_entries(wc: WriteConcern) -> Seq<(Seq<char>, BsonView)> {
    let w = match wc.w {
        None => Seq::empty(),
        Some(Acknowledgment::Nodes(n)) => seq![("w"@, BsonView::Int32(n))],
        Some(Acknowledgment::Majority) => seq![("w"@, BsonView::Str("majority"@))],
        Some(Acknowledgment::Custom(s)) => seq![("w"@, BsonView::Str(s@))],
    };
    let timeout = match wc.w_timeout_ms {
        None => Seq::empty(),
        Some(ms) => seq![("wtimeout"@, BsonView::Int64(ms as i64))],
    };
    let journal = match wc.journal {
        None => Seq::empty(),
        Some(j) => seq![("j"@, BsonView::Boolean(j))],
    };
    w + timeout + journal
}

/// The document form of a write concern, as commands carry it.
pub fn write_concern_to_document(write_concern: &WriteConcern) -> (r: Document)
    ensures
        r@ == write_concern_entries(*write_concern),
{
    let mut entries: Vec<(String, Bson)> = Vec::new();
    match &write_concern.w {
        None => {},
        Some(Acknowledgment::Nodes(n)) => {
            entries.push(("w".to_owned(), Bson::Int32(*n)));
        },
        Some(Acknowledgment::Majority) => {
            entries.push(("w".to_owned(), Bson::Str("majority".to_owned())));
        },
        Some(Acknowledgment::Custom(s)) => {
            entries.push(("w".to_owned(), Bson::Str(s.clone())));
        },
    }
    if let Some(ms) = write_concern.w_timeout_ms {
        entries.push(("wtimeout".to_owned(), Bson::Int64(ms as i64)));
    }
    if let Some(j) = write_concern.journal {
        entries.push(("j".to_owned(), Bson::Boolean(j)));
    }
    let r = Document { entries };
    assert(r@ =~= write_concern_entries(*write_concern));
    r
}

} // verus!
