//! What is known of this endpoint itself.
use crate::table::Record;
use crate::text::copy_option;
use crate::text;
use vstd::prelude::*;

verus! {

/// This endpoint: its identity, and how it is reached.
#[derive(Debug, Clone, PartialEq, Eq)]
pub struct Endpoint {
    pub issuer: String,
    pub agent: String,
    /// The thumbprint of the identity root.
    pub root: String,
    /// The identity token.
    pub token: String,
    pub interface_url: String,
    pub receive_addr: Option<String>,
    /// The fingerprint of the certificate.
    pub fingerprint: String,
    pub data_dir: String,
}

/// The view of [`Endpoint`].
#[verifier::ext_equal]
pub struct EndpointView {
    pub issuer: Seq<char>,
    pub agent: Seq<char>,
    pub root: Seq<char>,
    pub token: Seq<char>,
    pub interface_url: Seq<char>,
    pub receive_addr: Option<Seq<char>>,
    pub fingerprint: Seq<char>,
    pub data_dir: Seq<char>,
}

impl View for Endpoint {
    type V = EndpointView;

    open spec fn view(&self) -> EndpointView {
        EndpointView {
            issuer: self.issuer@,
            agent: self.agent@,
            root: self.root@,
            token: self.token@,
            interface_url: self.interface_url@,
            receive_addr: text::view_option(self.receive_addr),
            fingerprint: self.fingerprint@,
            data_dir: self.data_dir@,
        }
    }
}

impl Record for Endpoint {
    fn dup(&self) -> (r: Self) {
        let r = Endpoint {
            issuer: self.issuer.clone(),
            agent: self.agent.clone(),
            root: self.root.clone(),
            token: self.token.clone(),
            interface_url: self.interface_url.clone(),
            receive_addr: copy_option(&self.receive_addr),
            fingerprint: self.fingerprint.clone(),
            data_dir: self.data_dir.clone(),
        };
        r
    }
}


} // verus!
