//! Hardware identity of a display.
//!
//! A display announces itself through a 128-byte identity block read over the
//! control bus.  The outside parser turns that block into header fields and a
//! list of display descriptors; this module keeps, as plain values, exactly
//! what the rest of the library reads from it: the identifying header fields,
//! used to correlate independent discovery sources, and the product-name
//! descriptor, used to name a screen.

use vstd::prelude::*;

verus! {

/// The identifying header fields of a display's identity block: who made the
/// panel and which unit it is.  Two records are equal exactly when every
/// field agrees.
#[derive(Clone, Copy, Debug, PartialEq, Eq, Structural)]
pub struct IdentityRecord {
    /// Manufacturer letters, three ASCII codes.
    pub vendor0: u8,
    pub vendor1: u8,
    pub vendor2: u8,
    pub product: u16,
    pub serial: u32,
    pub week: u8,
    pub year: u8,
}

/// One display descriptor of an identity block, reduced to what the registry
/// reads from it: a product name, or anything else.
#[derive(Debug)]
pub enum DescriptorField {
    ProductName(Vec<u8>),
    Other,
}

/// The mathematical shape of a descriptor.
pub enum DescriptorModel {
    ProductName(Seq<u8>),
    Other,
}

impl View for DescriptorField {
    type V = DescriptorModel;

    open spec fn view(&self) -> DescriptorModel {
        match self {
            DescriptorField::ProductName(n) => DescriptorModel::ProductName(n@),
            DescriptorField::Other => DescriptorModel::Other,
        }
    }
}

/// A successfully parsed identity block.
pub struct ParsedBlock {
    pub record: IdentityRecord,
    pub descriptors: Vec<DescriptorField>,
}

/// The mathematical shape of a parsed identity block.
pub struct ParsedBlockModel {
    pub record: IdentityRecord,
    pub descriptors: Seq<DescriptorModel>,
}

impl View for ParsedBlock {
    type V = ParsedBlockModel;

    open spec fn view(&self) -> ParsedBlockModel {
        ParsedBlockModel {
            record: self.record,
            descriptors: self.descriptors@.map(|i: int, d: DescriptorField| d@),
        }
    }
}

/// What the outside parser makes of an identity block: `None` where the block
/// is rejected, otherwise the header fields and the descriptors.  The result
/// depends on the bytes alone.
pub uninterp spec fn edid_parse(bytes: Seq<u8>) -> Option<ParsedBlockModel>;

/// Relies on `edid::parse`: on an input of at least 128 bytes the parser
/// either rejects the block or consumes exactly 128 bytes, so `to_result`
/// never meets an incomplete parse (on which it would panic).  The header's
/// identifying fields are carried over one for one; each descriptor is
/// reduced to its product-name bytes, or to `Other`.
#[verifier::external_body]
pub(crate) fn parse_identity_block(bytes: &Vec<u8>) -> (r: Option<ParsedBlock>)
    requires
        bytes@.len() >= 128,
    ensures
        match r {
            Some(p) => edid_parse(bytes@) == Some(p@),
            None => edid_parse(bytes@) is None,
        },
{
    let e = match edid::parse(bytes.as_slice()).to_result() {
        Ok(e) => e,
        Err(_) => return None,
    };
    let record = IdentityRecord {
        vendor0: e.header.vendor[0] as u8, vendor1: e.header.vendor[1] as u8,
        vendor2: e.header.vendor[2] as u8, product: e.header.product,
        serial: e.header.serial, week: e.header.week, year: e.header.year,
    };
    let descriptors = e.descriptors.into_iter().map(|d| match d {
        edid::Descriptor::ProductName(s) => DescriptorField::ProductName(s.into_bytes()),
        _ => DescriptorField::Other,
    }).collect();
    Some(ParsedBlock { record, descriptors })
}

/// The first product name among the descriptors, if any.
pub open spec fn product_name_of(descriptors: Seq<DescriptorModel>) -> Option<Seq<u8>>
    decreases descriptors.len(),
{
    if descriptors.len() == 0 {
        None
    } else {
        match descriptors[0] {
            DescriptorModel::ProductName(n) => Some(n),
            DescriptorModel::Other => product_name_of(descriptors.drop_first()),
        }
    }
}

/// Walks the descriptors for the first product name.
pub fn find_product_name(descriptors: &Vec<DescriptorField>) -> (r: Option<Vec<u8>>)
    ensures
        match r {
            Some(n) => product_name_of(descriptors@.map(|i: int, d: DescriptorField| d@)) == Some(
                n@,
            ),
            None => product_name_of(descriptors@.map(|i: int, d: DescriptorField| d@)) is None,
        },
{
    let ghost ds = descriptors@.map(|i: int, d: DescriptorField| d@);
    let n: usize = descriptors.len();
    let mut k: usize = 0;
    proof {
        assert(ds.skip(0) =~= ds);
    }
    while k < n
        invariant
            n == descriptors@.len(),
            ds == descriptors@.map(|i: int, d: DescriptorField| d@),
            k <= n,
            product_name_of(ds.skip(k as int)) == product_name_of(ds),
            forall|j: int| 0 <= j < k ==> !(ds[j] is ProductName),
        decreases n - k,
    {
        proof {
            assert(ds.skip(k as int)[0] == ds[k as int]);
        }
        match &descriptors[k] {
            DescriptorField::ProductName(name) => {
                proof {
                    assert(product_name_of(ds.skip(k as int)) == Some(name@));
                }
                return Some(name.clone());
            },
            DescriptorField::Other => {
                proof {
                    assert(ds.skip(k as int).drop_first() =~= ds.skip(k as int + 1));
                }
                k += 1;
            },
        }
    }
    proof {
        assert(ds.skip(n as int) =~= Seq::<DescriptorModel>::empty());
    }
    None
}

} // verus!
