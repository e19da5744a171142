//! What one poll cycle observes of the cluster: namespaces and services, each
//! with its name and its annotations.

use crate::annotations::Annotations;
use vstd::prelude::*;

verus! {

/// A namespace as one listing returned it. Its name identifies it.
#[derive(Debug)]
pub struct NamespaceRecord {
    pub name: String,
    pub annotations: Annotations,
}

/// What a [`NamespaceRecord`] stands for in contracts.
pub struct NamespaceView {
    pub name: Seq<char>,
    pub annotations: Map<Seq<char>, Seq<char>>,
}

impl View for NamespaceRecord {
    type V = NamespaceView;

    open spec fn view(&self) -> NamespaceView {
        NamespaceView { name: self.name@, annotations: self.annotations@ }
    }
}

impl DeepView for NamespaceRecord {
    type V = NamespaceView;

    open spec fn deep_view(&self) -> NamespaceView {
        self@
    }
}

/// A service as one listing returned it. Its name identifies it within the
/// namespace that was listed.
#[derive(Debug)]
pub struct ServiceRecord {
    pub name: String,
    pub annotations: Annotations,
}

/// What a [`ServiceRecord`] stands for in contracts.
pub struct ServiceView {
    pub name: Seq<char>,
    pub annotations: Map<Seq<char>, Seq<char>>,
}

impl View for ServiceRecord {
    type V = ServiceView;

    open spec fn view(&self) -> ServiceView {
        ServiceView { name: self.name@, annotations: self.annotations@ }
    }
}

impl DeepView for ServiceRecord {
    type V = ServiceView;

    open spec fn deep_view(&self) -> ServiceView {
        self@
    }
}

} // verus!
