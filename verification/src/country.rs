//! A ready-made consumer of the decode contract: a country record with
//! required and optional fields, a required geometry, and its own error
//! type embedding the shared taxonomy.

use vstd::prelude::*;
use vstd::string::StringExecFns;

use crate::feature::{
    geom_model, res_models, spec_try_into_int, spec_try_into_real, spec_try_into_string,
    spec_try_into_string_opt, FeatureTrait, FieldResult, FieldResultModel,
};
use crate::value::Geometry;
use crate::{GdalTraitError, GdalTraitErrorModel};

verus! {

/// A decoded country record.  The population estimate keeps the raw bit
/// pattern of the source's real value; this crate never interprets it.
#[derive(Debug, PartialEq)]
pub struct Country {
    pub name: String,
    pub iso_a2: Option<String>,
    pub iso_a3: String,
    pub pop_est: u64,
    pub pop_year: i32,
    pub geom: Geometry,
}

/// The specification-level picture of a [`Country`].
pub struct CountryModel {
    pub name: Seq<char>,
    pub iso_a2: Option<Seq<char>>,
    pub iso_a3: Seq<char>,
    pub pop_est: u64,
    pub pop_year: i32,
    pub geom: Seq<u8>,
}

impl DeepView for Country {
    type V = CountryModel;

    open spec fn deep_view(&self) -> CountryModel {
        CountryModel {
            name: self.name@,
            iso_a2: match self.iso_a2 {
                Some(s) => Some(s@),
                None => None,
            },
            iso_a3: self.iso_a3@,
            pop_est: self.pop_est,
            pop_year: self.pop_year,
            geom: self.geom@,
        }
    }
}

/// What a country decode can fail with: an error of the shared taxonomy,
/// or a record without geometry.
#[derive(Debug, PartialEq)]
pub enum CountryError {
    GdalTraitError(GdalTraitError),
    NoGeometry,
}

/// The specification-level picture of a [`CountryError`].
pub enum CountryErrorModel {
    GdalTraitError(GdalTraitErrorModel),
    NoGeometry,
}

impl DeepView for CountryError {
    type V = CountryErrorModel;

    open spec fn deep_view(&self) -> CountryErrorModel {
        match self {
            CountryError::GdalTraitError(e) => CountryErrorModel::GdalTraitError(e.deep_view()),
            CountryError::NoGeometry => CountryErrorModel::NoGeometry,
        }
    }
}

impl From<GdalTraitError> for CountryError {
    /// Embed a shared-taxonomy error, as the decode contract expects of a
    /// consumer error type.
    fn from(e: GdalTraitError) -> (r: Self)
        ensures
            r == CountryError::GdalTraitError(e),
    {
        CountryError::GdalTraitError(e)
    }
}

impl vstd::std_specs::convert::FromSpecImpl<GdalTraitError> for CountryError {
    open spec fn obeys_from_spec() -> bool {
        true
    }

    open spec fn from_spec(e: GdalTraitError) -> Self {
        CountryError::GdalTraitError(e)
    }
}

impl FeatureTrait<CountryError> for Country {
    open spec fn spec_fields() -> Seq<Seq<char>> {
        seq!["NAME"@, "ISO_A2"@, "ISO_A3"@, "POP_EST"@, "POP_YEAR"@]
    }

    open spec fn read_model(
        fid: Option<u64>,
        fields: Seq<FieldResultModel>,
        geometry: Option<Seq<u8>>,
    ) -> Result<CountryModel, CountryErrorModel> {
        if fields.len() != 5 {
            Err(CountryErrorModel::GdalTraitError(GdalTraitErrorModel::InvalidFieldValue(
                "expected 5 field outcomes"@,
            )))
        } else {
            match spec_try_into_string(fields[0]) {
                Err(e) => Err(CountryErrorModel::GdalTraitError(e)),
                Ok(name) => match spec_try_into_string_opt(fields[1]) {
                    Err(e) => Err(CountryErrorModel::GdalTraitError(e)),
                    Ok(iso_a2) => match spec_try_into_string(fields[2]) {
                        Err(e) => Err(CountryErrorModel::GdalTraitError(e)),
                        Ok(iso_a3) => match spec_try_into_real(fields[3]) {
                            Err(e) => Err(CountryErrorModel::GdalTraitError(e)),
                            Ok(pop_est) => match spec_try_into_int(fields[4]) {
                                Err(e) => Err(CountryErrorModel::GdalTraitError(e)),
                                Ok(pop_year) => match geometry {
                                    None => Err(CountryErrorModel::NoGeometry),
                                    Some(g) => Ok(CountryModel {
                                        name,
                                        iso_a2,
                                        iso_a3,
                                        pop_est,
                                        pop_year,
                                        geom: g,
                                    }),
                                },
                            },
                        },
                    },
                },
            }
        }
    }

    fn fields() -> (r: Vec<String>)
        ensures
            r.deep_view() == Self::spec_fields(),
    {
        let mut r: Vec<String> = Vec::new();
        r.push(String::from_str("NAME"));
        r.push(String::from_str("ISO_A2"));
        r.push(String::from_str("ISO_A3"));
        r.push(String::from_str("POP_EST"));
        r.push(String::from_str("POP_YEAR"));
        proof {
            assert(r.deep_view() =~= Self::spec_fields());
        }
        r
    }

    fn read(
        fid: Option<u64>,
        fields: Vec<FieldResult>,
        geometry: Option<&Geometry>,
    ) -> (r: Result<Self, CountryError>)
        ensures
            res_models(r, Self::read_model(fid, fields.deep_view(), geom_model(geometry))),
    {
        if fields.len() != 5 {
            return Err(CountryError::GdalTraitError(GdalTraitError::InvalidFieldValue(
                String::from_str("expected 5 field outcomes"),
            )));
        }
        proof {
            assert(fields.deep_view()[0] == fields@[0].deep_view());
            assert(fields.deep_view()[1] == fields@[1].deep_view());
            assert(fields.deep_view()[2] == fields@[2].deep_view());
            assert(fields.deep_view()[3] == fields@[3].deep_view());
            assert(fields.deep_view()[4] == fields@[4].deep_view());
        }
        let name = match fields[0].clone().try_into_string() {
            Ok(v) => v,
            Err(e) => return Err(CountryError::GdalTraitError(e)),
        };
        let iso_a2 = match fields[1].clone().try_into_string_opt() {
            Ok(v) => v,
            Err(e) => return Err(CountryError::GdalTraitError(e)),
        };
        let iso_a3 = match fields[2].clone().try_into_string() {
            Ok(v) => v,
            Err(e) => return Err(CountryError::GdalTraitError(e)),
        };
        let pop_est = match fields[3].clone().try_into_real() {
            Ok(v) => v,
            Err(e) => return Err(CountryError::GdalTraitError(e)),
        };
        let pop_year = match fields[4].clone().try_into_int() {
            Ok(v) => v,
            Err(e) => return Err(CountryError::GdalTraitError(e)),
        };
        let geom = match geometry {
            Some(g) => g.clone(),
            None => return Err(CountryError::NoGeometry),
        };
        Ok(Country { name, iso_a2, iso_a3, pop_est, pop_year, geom })
    }
}

} // verus!
