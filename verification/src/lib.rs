//! Core of a small static site generator.
//!
//! The library builds a site-wide index of page identifiers, rewrites
//! `{name}` / `{name,label}` cross-reference tokens into hyperlinks while
//! checking every reference against that index, and assembles each page
//! into a complete HTML document with shared chrome (head, header, footer
//! and a formatted last-edited timestamp).

pub mod index;
pub mod links;
pub mod markup;
pub mod naming;
pub mod timefmt;
pub mod web_page;
