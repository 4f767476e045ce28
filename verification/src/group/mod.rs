//! Group knowledge spaces: the binding between an IM group conversation and a
//! knowledge space, its member snapshot, provisioning, membership ACL
//! projection and archive saga.

pub mod states;
pub mod model;
pub mod binding;
pub mod provisioning;
pub mod members;
pub mod membership;
pub mod archive;
pub mod fingerprint;
