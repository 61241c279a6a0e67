//! A keyed text resource with one value per supported language.
use vstd::prelude::*;
use crate::error::{Error, ResourceDataValidationError, ValidationError};
use crate::text::str_eq;

verus! {

#[derive(Debug, Clone, Default, PartialEq)]
pub struct Resource {
    pub key: Option<String>,
    pub en: Option<String>,
    pub pl: Option<String>,
}

impl Resource {
    /// The update route's guard: the payload must carry a key and it
    /// must be the key the request was addressed to.
    pub fn validate_key(&self, key: &str) -> (r: Result<(), Error>)
        ensures
            r is Ok <==> (self.key matches Some(k) && k@ == key@),
            r matches Err(e) ==> match self.key {
                None => e == Error::ValidationError(
                    ValidationError::ResourceData(ResourceDataValidationError::KeyMissing),
                ),
                Some(k) => e matches Error::ValidationError(
                    ValidationError::ResourceData(ResourceDataValidationError::KeyMismatch(a, b)),
                ) && a@ == key@ && b@ == k@,
            },
    {
        match &self.key {
            None => Err(Error::ValidationError(
                ValidationError::ResourceData(ResourceDataValidationError::KeyMissing),
            )),
            Some(k) => {
                if str_eq(k.as_str(), key) {
                    Ok(())
                } else {
                    Err(Error::ValidationError(
                        ValidationError::ResourceData(ResourceDataValidationError::KeyMismatch(
                            key.to_owned(),
                            k.clone(),
                        )),
                    ))
                }
            },
        }
    }
}

} // verus!
