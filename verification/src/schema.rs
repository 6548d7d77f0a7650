//! The plain record shapes the service exchanges with its callers.

use vstd::prelude::*;

verus! {

/// Listing options. They are accepted but nothing filters by them.
#[derive(Debug)]
pub struct FilterOptions {
    pub page: Option<usize>,
    pub limit: Option<usize>,
}

impl Default for FilterOptions {
    /// No page and no limit.
    fn default() -> (r: Self)
        ensures
            r.page is None,
            r.limit is None,
    {
        FilterOptions { page: None, limit: None }
    }
}

/// A path parameter carrying an id.
#[derive(Debug)]
pub struct ParamOptions {
    pub id: String,
}

/// The submitted body of a create or update request.
#[derive(Debug)]
pub struct CreateUpdateUserSchema {
    pub username: String,
    pub email: String,
    pub phone: String,
    pub password: String,
}

impl Clone for CreateUpdateUserSchema {
    fn clone(&self) -> (r: Self)
        ensures
            r.username@ == self.username@,
            r.email@ == self.email@,
            r.phone@ == self.phone@,
            r.password@ == self.password@,
    {
        CreateUpdateUserSchema {
            username: self.username.clone(),
            email: self.email.clone(),
            phone: self.phone.clone(),
            password: self.password.clone(),
        }
    }
}

} // verus!
