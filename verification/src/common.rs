use vstd::prelude::*;

verus! {

/// The error taxonomy of the booking engine.  Every failing operation
/// reports exactly one of these kinds, each with a human-readable message.
#[derive(Debug)]
pub enum AppError {
    /// Malformed input: an unknown status value, or a stay whose check-out
    /// does not fall strictly after its check-in.
    ValidationError(String),
    /// The requested dates overlap an existing reservation for the room.
    Conflict(String),
    /// A reservation, room, or room type that the operation needs does not
    /// exist.
    NotFound(String),
    /// The store itself cannot take the write (its id space is exhausted).
    StorageFailure(String),
}

impl AppError {
    pub open spec fn is_validation_error(&self) -> bool {
        self matches AppError::ValidationError(_)
    }

    pub open spec fn is_conflict(&self) -> bool {
        self matches AppError::Conflict(_)
    }

    pub open spec fn is_not_found(&self) -> bool {
        self matches AppError::NotFound(_)
    }

    pub open spec fn is_storage_failure(&self) -> bool {
        self matches AppError::StorageFailure(_)
    }

    /// The message carried by the error, whatever its kind.
    pub fn message(&self) -> (m: &String)
        ensures
            self matches AppError::ValidationError(s) ==> m@ == s@,
            self matches AppError::Conflict(s) ==> m@ == s@,
            self matches AppError::NotFound(s) ==> m@ == s@,
            self matches AppError::StorageFailure(s) ==> m@ == s@,
    {
        match self {
            AppError::ValidationError(s) => s,
            AppError::Conflict(s) => s,
            AppError::NotFound(s) => s,
            AppError::StorageFailure(s) => s,
        }
    }
}

/// Page selection as a caller hands it in, either value possibly absent.
pub struct PaginationParams {
    pub page: Option<i64>,
    pub page_size: Option<i64>,
}

impl PaginationParams {
    /// The page actually asked for: absent values fall back to the first
    /// page and to ten rows per page.
    pub fn resolve(&self) -> (r: (i64, i64))
        ensures
            r.0 == (if self.page is Some {
                self.page->0
            } else {
                1i64
            }),
            r.1 == (if self.page_size is Some {
                self.page_size->0
            } else {
                10i64
            }),
    {
        let page = match self.page {
            Some(p) => p,
            None => 1,
        };
        let page_size = match self.page_size {
            Some(s) => s,
            None => 10,
        };
        (page, page_size)
    }
}

} // verus!
