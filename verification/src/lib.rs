//! Decoding and metric translation for the status dump of a multipath
//! disk-management daemon.
//!
//! The library turns a structured status document into a typed domain
//! model (devices, path groups, paths, each carrying closed-set state
//! codes), and translates that model into a flat, deterministic set of
//! labeled numeric samples for a metrics-scraping protocol. Reading
//! the daemon's output and serving the samples are left to the caller.

use vstd::prelude::*;

pub mod collector;
pub mod common;
pub mod deserializers;
pub mod document;
pub mod map;
pub mod path;
pub mod path_group;
pub mod text;

use crate::deserializers::{DecodeError, SpecErr};
use crate::document::{get_u64_field, lookup, spec_lookup, spec_u64_field, DocValue};
use crate::map::{devices_from_list, spec_devices_from_list, Device, SpecDevice};

verus! {

/// Ghost model of a [`Multipathd`] status dump.
#[verifier::ext_equal]
pub struct SpecMultipathd {
    pub major_version: u64,
    pub minor_version: u64,
    pub maps: Seq<SpecDevice>,
}

/// A whole status dump: the protocol version and every multipath
/// device ("map"), in input order.
pub struct Multipathd {
    pub major_version: u64,
    pub minor_version: u64,
    pub maps: Vec<Device>,
}

impl View for Multipathd {
    type V = SpecMultipathd;

    open spec fn view(&self) -> SpecMultipathd {
        SpecMultipathd {
            major_version: self.major_version,
            minor_version: self.minor_version,
            maps: self.maps@.map_values(|d: Device| d@),
        }
    }
}

/// A list-of-devices field: absent means the empty list; any non-list
/// kind is a structural error.
pub open spec fn spec_maps_field(f: Seq<(String, DocValue)>, key: Seq<char>) -> Result<
    Seq<SpecDevice>,
    SpecErr,
> {
    match spec_lookup(f, key) {
        None => Ok(Seq::<SpecDevice>::empty()),
        Some(v) => match v {
            DocValue::List(items) => spec_devices_from_list(items@),
            _ => Err(SpecErr::Structure(key)),
        },
    }
}

/// Decode of a whole status dump from the fields of its document
/// object, field by field in declared order; the first failing field
/// decides the error.
pub open spec fn spec_multipathd_from_fields(f: Seq<(String, DocValue)>) -> Result<
    SpecMultipathd,
    SpecErr,
> {
    let major_version = spec_u64_field(f, "major_version"@);
    let minor_version = spec_u64_field(f, "minor_version"@);
    let maps = spec_maps_field(f, "maps"@);
    if major_version is Err {
        Err(major_version->Err_0)
    } else if minor_version is Err {
        Err(minor_version->Err_0)
    } else if maps is Err {
        Err(maps->Err_0)
    } else {
        Ok(
            SpecMultipathd {
                major_version: major_version->Ok_0,
                minor_version: minor_version->Ok_0,
                maps: maps->Ok_0,
            },
        )
    }
}

/// Decode of a whole status dump from the document root: anything but
/// an object is a structural error.
pub open spec fn spec_multipathd_doc(v: DocValue) -> Result<SpecMultipathd, SpecErr> {
    match v {
        DocValue::Object(fs) => spec_multipathd_from_fields(fs@),
        _ => Err(SpecErr::Structure("multipathd"@)),
    }
}

impl Multipathd {
    /// Builds the whole entity tree from the document root, applying
    /// each field decoder when a key is present and the field default
    /// when it is absent; any decode or structural failure anywhere in
    /// the tree aborts the whole construction — no partial tree.
    pub fn from_doc(doc: &DocValue) -> (r: Result<Multipathd, DecodeError>)
        ensures
            r is Ok <==> spec_multipathd_doc(*doc) is Ok,
            r matches Ok(m) ==> spec_multipathd_doc(*doc) matches Ok(sm) && m@ == sm,
            r matches Err(e) ==> spec_multipathd_doc(*doc) matches Err(t) && e@ == t,
    {
        let fields = match doc {
            DocValue::Object(fs) => fs,
            _ => {
                return Err(DecodeError::Structure("multipathd".to_owned()));
            },
        };
        let major_version = match get_u64_field(fields, "major_version") {
            Ok(n) => n,
            Err(e) => {
                return Err(e);
            },
        };
        let minor_version = match get_u64_field(fields, "minor_version") {
            Ok(n) => n,
            Err(e) => {
                return Err(e);
            },
        };
        let maps = match lookup(fields, "maps") {
            None => Vec::new(),
            Some(v) => match v {
                DocValue::List(items) => match devices_from_list(items) {
                    Ok(ds) => ds,
                    Err(e) => {
                        return Err(e);
                    },
                },
                _ => {
                    return Err(DecodeError::Structure("maps".to_owned()));
                },
            },
        };
        let m = Multipathd { major_version, minor_version, maps };
        proof {
            let mfr = spec_maps_field(fields@, "maps"@);
            if mfr is Ok {
                assert(m@.maps =~= mfr->Ok_0);
            }
            assert(spec_multipathd_doc(*doc) matches Ok(sm) && m@ =~= sm);
        }
        Ok(m)
    }
}

} // verus!
