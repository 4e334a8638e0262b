//! Provisioning of a CoreOS guest on z/VM: installation targets, boot image
//! locations, the installer's kernel parameter line, and the ordered transfer
//! of the boot artifacts to the guest's virtual reader.
pub mod config;
pub mod images;
pub mod ipl;
pub mod parm;
pub mod text;
