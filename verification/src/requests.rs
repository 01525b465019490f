//! Query parameters of a ROM listing request (`GET /api/roms`).

use vstd::prelude::*;

verus! {

/// Query for `GET /api/roms`: at most one source filter plus paging/search.
#[derive(Debug, Clone, PartialEq, Eq)]
pub struct GetRoms {
    pub search_term: Option<String>,
    pub platform_id: Option<u64>,
    pub collection_id: Option<u64>,
    pub smart_collection_id: Option<u64>,
    pub virtual_collection_id: Option<String>,
    pub limit: Option<u32>,
    pub offset: Option<u32>,
}

/// The request with every parameter unset.
pub open spec fn no_params() -> GetRoms {
    GetRoms {
        search_term: None,
        platform_id: None,
        collection_id: None,
        smart_collection_id: None,
        virtual_collection_id: None,
        limit: None,
        offset: None,
    }
}

impl Default for GetRoms {
    fn default() -> (r: GetRoms)
        ensures
            r == no_params(),
    {
        GetRoms {
            search_term: None,
            platform_id: None,
            collection_id: None,
            smart_collection_id: None,
            virtual_collection_id: None,
            limit: None,
            offset: None,
        }
    }
}

} // verus!
