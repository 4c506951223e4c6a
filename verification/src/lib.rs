//! Acquisition and normalization pipeline for scholarly paper PDFs.
//!
//! The library locates a paper by DOI through an ordered list of mirror
//! endpoints, classifies each response as a ready binary or as markup that
//! must be scraped for a viewer link, stores the payload under a
//! deterministic name, extracts a DOI from the document text, resolves
//! bibliographic metadata from a registry message, and derives a canonical
//! file name. All decision logic is verified; network and file transport
//! live outside the library and feed it plain values.

pub mod json;
pub mod metadata;
pub mod ai;
pub mod models;
pub mod scan;
pub mod classify;
pub mod doi;
pub mod excerpt;
pub mod linkscan;
pub mod mirror;
pub mod naming;
pub mod pubmed;
