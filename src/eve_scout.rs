//! The wormhole signature feed: its record shape, how a response status is
//! classified, and which signatures become jump pairs.
use vstd::prelude::*;

verus! {

/// Why a request to the signature feed failed.
#[derive(Clone, Debug)]
pub enum Error {
    /// The transport failed, or the body could not be read; the message says how.
    Request(String),
    /// Status 5xx.
    ServerError { status: u16, body: String },
    /// Any other status outside 2xx.
    UnexpectedError { status: u16, body: String },
}

/// One public signature of the feed.
#[derive(Clone, Debug)]
pub struct EveScoutSignature {
    pub id: String,
    pub created_at: String,
    pub created_by_id: i64,
    pub created_by_name: String,
    pub updated_at: String,
    pub updated_by_id: i64,
    pub updated_by_name: String,
    pub completed_at: String,
    pub completed_by_id: i64,
    pub completed_by_name: String,
    pub completed: bool,
    pub wh_exits_outward: bool,
    pub wh_type: String,
    pub max_ship_size: String,
    pub expires_at: String,
    pub remaining_hours: i64,
    pub signature_type: String,
    pub out_system_id: i64,
    pub out_system_name: String,
    pub out_signature: String,
    pub in_system_id: i64,
    pub in_system_class: String,
    pub in_system_name: String,
    pub in_region_id: i64,
    pub in_region_name: String,
    pub in_signature: String,
    pub comment: Option<String>,
}

/// Classifies a feed response by its status; a success leaves the body to be
/// parsed by the caller.
pub fn classify_signature_status(status: u16, body: String) -> (r: Result<(), Error>)
    ensures
        (200 <= status < 300) <==> r is Ok,
        match r {
            Ok(_) => true,
            Err(Error::ServerError { status: s, body: b }) => 500 <= status < 600 && s == status
                && b == body,
            Err(Error::UnexpectedError { status: s, body: b }) => !(200 <= status < 300) && !(500
                <= status < 600) && s == status && b == body,
            Err(Error::Request(_)) => false,
        },
{
    if 200 <= status && status < 300 {
        Ok(())
    } else if 500 <= status && status < 600 {
        Err(Error::ServerError { status, body })
    } else {
        Err(Error::UnexpectedError { status, body })
    }
}

/// The type that marks a wormhole signature.
pub open spec fn wormhole_text() -> Seq<char> {
    seq!['w', 'o', 'r', 'm', 'h', 'o', 'l', 'e']
}

/// The `(in, out)` system pairs of the wormhole signatures, in feed order.
pub open spec fn wormhole_pairs(signatures: Seq<EveScoutSignature>) -> Seq<(i64, i64)>
    decreases signatures.len(),
{
    if signatures.len() == 0 {
        Seq::empty()
    } else {
        let rest = wormhole_pairs(signatures.drop_last());
        let s = signatures.last();
        if s.signature_type@ == wormhole_text() {
            rest.push((s.in_system_id, s.out_system_id))
        } else {
            rest
        }
    }
}

/// The `(in, out)` system pairs of the signatures whose type is "wormhole".
pub fn wormhole_links(signatures: &Vec<EveScoutSignature>) -> (r: Vec<(i64, i64)>)
    ensures
        r@ == wormhole_pairs(signatures@),
{
    let wormhole = String::from_str("wormhole");
    proof {
        reveal_strlit("wormhole");
        assert(wormhole@ =~= wormhole_text());
    }
    let mut links: Vec<(i64, i64)> = Vec::new();
    let mut i: usize = 0;
    while i < signatures.len()
        invariant
            i <= signatures@.len(),
            wormhole@ == wormhole_text(),
            links@ == wormhole_pairs(signatures@.subrange(0, i as int)),
        decreases signatures@.len() - i,
    {
        proof {
            assert(signatures@.subrange(0, i + 1).drop_last() =~= signatures@.subrange(0, i as int));
        }
        let s = &signatures[i];
        if s.signature_type == wormhole {
            links.push((s.in_system_id, s.out_system_id));
        }
        i = i + 1;
    }
    proof {
        assert(signatures@.subrange(0, i as int) =~= signatures@);
    }
    links
}

} // verus!
