//! Two nested records, a postal address and its country, with an extractor and
//! a wither for each field that a lens is made for here: the country of an
//! address, the name of a country, and the name of the country of an address.
//!
//! A wither copies the record field by field and replaces the one field. Each
//! pair is handed to `lens`; the models below say what the resulting lenses
//! compute.
use crate::optic::Optic;
use vstd::prelude::*;

verus! {

#[derive(Clone, Copy, Debug)]
pub struct Country<'a> {
    pub name: &'a str,
    pub flag: i64,
}

#[derive(Clone, Copy, Debug)]
pub struct ExternalAddress<'a> {
    pub address: &'a str,
    pub zip: i64,
    pub country: Country<'a>,
}

impl<'a> Country<'a> {
    /// Reads the name.
    pub fn name(obj: &Country<'a>) -> (r: &'a str)
        ensures
            r == obj.name,
    {
        obj.name
    }

    /// A copy of `obj` with the name replaced.
    pub fn with_name(obj: &Country<'a>, newval: &&'a str) -> (r: Country<'a>)
        ensures
            r == (Country { name: *newval, flag: obj.flag }),
    {
        Country { name: *newval, flag: obj.flag }
    }

    /// The lens on the name of a country.
    pub open spec fn name_optic() -> Optic<Country<'a>, &'a str> {
        Optic {
            get: |s: Country<'a>| s.name,
            put: |s: Country<'a>, a: &'a str| Country { name: a, flag: s.flag },
        }
    }
}

impl<'a> ExternalAddress<'a> {
    /// Reads the country.
    pub fn country(obj: &ExternalAddress<'a>) -> (r: Country<'a>)
        ensures
            r == obj.country,
    {
        obj.country
    }

    /// A copy of `obj` with the country replaced.
    pub fn with_country(obj: &ExternalAddress<'a>, newval: &Country<'a>) -> (r: ExternalAddress<'a>)
        ensures
            r == (ExternalAddress { address: obj.address, zip: obj.zip, country: *newval }),
    {
        ExternalAddress { address: obj.address, zip: obj.zip, country: *newval }
    }

    /// Reads the name of the country, through the whole path at once.
    pub fn country_name(obj: &ExternalAddress<'a>) -> (r: &'a str)
        ensures
            r == obj.country.name,
    {
        obj.country.name
    }

    /// A copy of `obj` with the name of the country replaced, through the
    /// whole path at once.
    pub fn with_country_name(obj: &ExternalAddress<'a>, newval: &&'a str) -> (r: ExternalAddress<'a>)
        ensures
            r == (ExternalAddress {
                address: obj.address,
                zip: obj.zip,
                country: Country { name: *newval, flag: obj.country.flag },
            }),
    {
        let mut new = *obj;
        new.country.name = *newval;
        new
    }

    /// The lens on the country of an address.
    pub open spec fn country_optic() -> Optic<ExternalAddress<'a>, Country<'a>> {
        Optic {
            get: |s: ExternalAddress<'a>| s.country,
            put: |s: ExternalAddress<'a>, a: Country<'a>|
                ExternalAddress { address: s.address, zip: s.zip, country: a },
        }
    }

    /// The lens on the name of the country of an address.
    pub open spec fn country_name_optic() -> Optic<ExternalAddress<'a>, &'a str> {
        Optic {
            get: |s: ExternalAddress<'a>| s.country.name,
            put: |s: ExternalAddress<'a>, a: &'a str|
                ExternalAddress {
                    address: s.address,
                    zip: s.zip,
                    country: Country { name: a, flag: s.country.flag },
                },
        }
    }
}

/// The three field lenses obey the lens laws.
pub proof fn field_lenses_lawful<'a>()
    ensures
        Country::<'a>::name_optic().lawful(),
        ExternalAddress::<'a>::country_optic().lawful(),
        ExternalAddress::<'a>::country_name_optic().lawful(),
{
}

/// The lens that goes through the path at once is the composition of the lens
/// on the country with the lens on the name.
pub proof fn path_is_composition<'a>()
    ensures
        ExternalAddress::<'a>::country_name_optic() == ExternalAddress::<'a>::country_optic().compose(
            Country::<'a>::name_optic(),
        ),
{
    let path = ExternalAddress::<'a>::country_name_optic();
    let chain = ExternalAddress::<'a>::country_optic().compose(Country::<'a>::name_optic());
    assert(path.get =~= chain.get);
    assert(path.put =~= chain.put);
}

/// A put leaves every other field as it was.
pub proof fn siblings_kept<'a>()
    ensures
        Country::<'a>::name_optic().keeps(|s: Country<'a>| s.flag),
        ExternalAddress::<'a>::country_optic().keeps(|s: ExternalAddress<'a>| (s.address, s.zip)),
        ExternalAddress::<'a>::country_name_optic().keeps(
            |s: ExternalAddress<'a>| (s.address, s.zip, s.country.flag),
        ),
{
}

} // verus!
