//! Whether a serving process may start on what it found on disk.

use vstd::prelude::*;
use tantivy::schema::Schema;
use crate::error::ErrorKind;
use crate::schema::{fits, report_fields, schema_fields};

verus! {

/// Decides whether serving may start. It may if the index could be opened,
/// its schema is the report schema, and the store could be opened. Anything
/// else is a startup failure: the process does not serve.
pub fn check(index: Option<&Schema>, store_opened: bool) -> (outcome: Result<(), ErrorKind>)
    ensures
        outcome is Ok <==> store_opened && (index matches Some(found) && schema_fields(*found)
            == report_fields()),
        outcome matches Err(kind) ==> kind == ErrorKind::Startup,
{
    match index {
        Some(found) => {
            if store_opened && fits(found) {
                Ok(())
            } else {
                Err(ErrorKind::Startup)
            }
        },
        None => Err(ErrorKind::Startup),
    }
}

} // verus!
