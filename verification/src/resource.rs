use vstd::prelude::*;

use crate::path::{parent_directory, parent_of};

verus! {

/// A resolved resource: where it lies, and the query and fragment that the
/// request carried.
#[derive(Debug)]
pub struct ResourceData {
    /// Path, query and fragment as one text.
    pub resource: String,
    /// Absolute path of the resource.
    pub resource_path: String,
    pub resource_query: Option<String>,
    pub resource_fragment: Option<String>,
}

impl Clone for ResourceData {
    fn clone(&self) -> (r: Self)
        ensures
            r == *self,
    {
        ResourceData {
            resource: self.resource.clone(),
            resource_path: self.resource_path.clone(),
            resource_query: match &self.resource_query {
                Some(q) => Some(q.clone()),
                None => None,
            },
            resource_fragment: match &self.resource_fragment {
                Some(f) => Some(f.clone()),
                None => None,
            },
        }
    }
}

impl ResourceData {
    pub fn new(resource: String, resource_path: String) -> (r: Self)
        ensures
            r.resource == resource,
            r.resource_path == resource_path,
            r.resource_query is None,
            r.resource_fragment is None,
    {
        ResourceData { resource, resource_path, resource_query: None, resource_fragment: None }
    }
}

/// The directory in which a resource lies.
pub fn get_context(resource_data: &ResourceData) -> (context: String)
    ensures
        context@ == parent_of(resource_data.resource_path@),
{
    parent_directory(resource_data.resource_path.as_str())
}

} // verus!
