use vstd::prelude::*;

verus! {

/// What one page of a listing looks like against the whole table: the table's
/// row count, how many pages it splits into, and which page this is.
#[derive(Clone, Copy, PartialEq, Eq, Structural, Debug)]
pub struct PaginationMeta {
    pub total_items: i64,
    pub total_pages: i64,
    pub current_page: i64,
    pub page_size: i64,
}

/// The envelope every endpoint answers with: a success flag and a message,
/// possibly with a data payload, possibly with pagination metadata as well.
pub enum StandardResponse<T> {
    MessageOnly { status: bool, message: String },
    WithData { status: bool, message: String, data: T },
    WithDataAndPagination { status: bool, message: String, data: T, pagination: PaginationMeta },
}

impl<T> StandardResponse<T> {
    /// A bare success answer.
    pub fn success(message: &str) -> (r: Self)
        ensures
            r matches StandardResponse::MessageOnly { status, message: m } && status && m@
                == message@,
    {
        StandardResponse::MessageOnly { status: true, message: message.to_owned() }
    }

    /// A success answer carrying a payload.
    pub fn success_with_data(data: T, message: &str) -> (r: Self)
        ensures
            r matches StandardResponse::WithData { status, message: m, data: d } && status && m@
                == message@ && d == data,
    {
        StandardResponse::WithData { status: true, message: message.to_owned(), data }
    }

    /// A success answer carrying one page of a listing and its metadata.
    pub fn success_with_pagination(data: T, message: &str, pagination: PaginationMeta) -> (r: Self)
        ensures
            r matches StandardResponse::WithDataAndPagination {
                status,
                message: m,
                data: d,
                pagination: p,
            } && status && m@ == message@ && d == data && p == pagination,
    {
        StandardResponse::WithDataAndPagination {
            status: true,
            message: message.to_owned(),
            data,
            pagination,
        }
    }

    /// A failure answer.
    pub fn error(message: &str) -> (r: Self)
        ensures
            r matches StandardResponse::MessageOnly { status, message: m } && !status && m@
                == message@,
    {
        StandardResponse::MessageOnly { status: false, message: message.to_owned() }
    }
}

} // verus!
