use vstd::prelude::*;
use vstd::string::StringSliceAdditionalSpecFns;
use crate::{remove_extra_newline, strip_cr};

verus! {

/// The four kinds of macro that a session can target.
#[derive(Clone, Copy, Debug, PartialEq, Eq, Structural)]
pub enum MacroType {
    Attribute,
    Declarative,
    Derive,
    Function,
}

/// The fresh content of one kind's project: manifest, library source and test source.
#[derive(Clone, Copy)]
pub struct Project {
    pub toml: &'static str,
    pub lib_rs: &'static str,
    pub test_rs: &'static str,
}

/// Where each file of a project lies, relative to the project's directory.
pub const MANIFEST_FILE: &'static str = "Cargo.toml";
pub const SOURCE_DIR: &'static str = "src";
pub const LIB_FILE: &'static str = "src/lib.rs";
pub const TESTS_DIR: &'static str = "tests";
pub const TEST_FILE: &'static str = "tests/test.rs";

/// The bytes of the three files of a project, as they are written to disk.
pub struct ProjectFiles {
    pub toml: Vec<u8>,
    pub lib_rs: Vec<u8>,
    pub test_rs: Vec<u8>,
}

/// The fresh project of each kind.
pub open spec fn fresh(kind: MacroType) -> Project {
    match kind {
        MacroType::Attribute => Project { toml: ATTRIBUTE_TOML, lib_rs: ATTRIBUTE_LIB, test_rs: ATTRIBUTE_TEST },
        MacroType::Declarative => Project {
            toml: DECLARATIVE_TOML,
            lib_rs: DECLARATIVE_LIB,
            test_rs: DECLARATIVE_TEST,
        },
        MacroType::Derive => Project { toml: DERIVE_TOML, lib_rs: DERIVE_LIB, test_rs: DERIVE_TEST },
        MacroType::Function => Project { toml: FUNCTION_TOML, lib_rs: FUNCTION_LIB, test_rs: FUNCTION_TEST },
    }
}

/// A kind's template manifest, newline-normalized.
pub open spec fn template_toml(kind: MacroType) -> Seq<u8> {
    strip_cr(fresh(kind).toml.spec_bytes())
}

/// A kind's template library source, newline-normalized.
pub open spec fn template_lib(kind: MacroType) -> Seq<u8> {
    strip_cr(fresh(kind).lib_rs.spec_bytes())
}

/// A kind's template test source, newline-normalized.
pub open spec fn template_test(kind: MacroType) -> Seq<u8> {
    strip_cr(fresh(kind).test_rs.spec_bytes())
}

/// Looks up the fresh project of a kind.
pub fn project_for(kind: MacroType) -> (p: Project)
    ensures
        p == fresh(kind),
{
    match kind {
        MacroType::Attribute => Project { toml: ATTRIBUTE_TOML, lib_rs: ATTRIBUTE_LIB, test_rs: ATTRIBUTE_TEST },
        MacroType::Declarative => Project {
            toml: DECLARATIVE_TOML,
            lib_rs: DECLARATIVE_LIB,
            test_rs: DECLARATIVE_TEST,
        },
        MacroType::Derive => Project { toml: DERIVE_TOML, lib_rs: DERIVE_LIB, test_rs: DERIVE_TEST },
        MacroType::Function => Project { toml: FUNCTION_TOML, lib_rs: FUNCTION_LIB, test_rs: FUNCTION_TEST },
    }
}

impl Project {
    /// The three files to write when a workspace is materialized, carriage returns removed.
    pub fn write(&self) -> (files: ProjectFiles)
        ensures
            files.toml@ == strip_cr(self.toml.spec_bytes()),
            files.lib_rs@ == strip_cr(self.lib_rs.spec_bytes()),
            files.test_rs@ == strip_cr(self.test_rs.spec_bytes()),
    {
        ProjectFiles {
            toml: remove_extra_newline(self.toml.as_bytes()),
            lib_rs: remove_extra_newline(self.lib_rs.as_bytes()),
            test_rs: remove_extra_newline(self.test_rs.as_bytes()),
        }
    }

    /// Fresh library and test sources, carriage returns removed.
    pub fn make_new(&self) -> (r: (Vec<u8>, Vec<u8>))
        ensures
            r.0@ == strip_cr(self.lib_rs.spec_bytes()),
            r.1@ == strip_cr(self.test_rs.spec_bytes()),
    {
        (remove_extra_newline(self.lib_rs.as_bytes()), remove_extra_newline(self.test_rs.as_bytes()))
    }
}

pub const ATTRIBUTE_TOML: &'static str = r#"[package]
name = "mac-attribute"
version = "0.1.0"
edition = "2021"

[lib]
proc-macro = true

[dependencies]
syn = { version = "2", features = ["full"] }
"#;

pub const ATTRIBUTE_LIB: &'static str = r#"use std::cmp::Ordering::*;

use proc_macro::TokenStream;
use syn::{braced, parse_macro_input, token, Ident, Result, Token, Variant, Error};
use syn::parse::{Parse, ParseStream};
use syn::punctuated::Punctuated;

#[allow(dead_code)]
struct SortedEnum {
    enum_token: Token![enum],
    ident: Ident,
    brace_token: token::Brace,
    variants: Punctuated<Variant, Token![,]>,
}

impl Parse for SortedEnum {
    fn parse(input: ParseStream) -> Result<Self> {
        let lookahead = input.lookahead1();
        if !lookahead.peek(Token![enum]) {
            return Err(lookahead.error());
        }

        let content;
        let new = SortedEnum {
            enum_token: input.parse()?,
            ident: input.parse()?,
            brace_token: braced!(content in input),
            variants: content.parse_terminated(Variant::parse, Token![,])?
        };

        // Check that the variants are sorted
        let mut variants_iter = new.variants.iter().map(|var| &var.ident);
        let Some(mut ident1) = variants_iter.next() else { return Ok(new); };

        for ident2 in variants_iter {
            if ident1.cmp(ident2) != Less {
                return Err(Error::new(
                        ident1.span(),
                        format!("{} is out of order. Please sort your variants correctly.", ident1)
                    ));
            }
            ident1 = ident2;
        }

        Ok(new)
    }
}

#[proc_macro_attribute]
pub fn sorted(_args: TokenStream, tokens: TokenStream) -> TokenStream {
    let token_stream = tokens.clone();
    let _input = parse_macro_input!(tokens as SortedEnum);
    token_stream
}
"#;

pub const ATTRIBUTE_TEST: &'static str = r#"use mac_attribute::sorted;

#[sorted]
pub enum Conference {
    RustBeltRust,
    RustConf,
    RustFest,
}

#[test]
fn test() {
    let _ = Conference::RustConf;
}
"#;

pub const DECLARATIVE_TOML: &'static str = r#"[package]
name = "mac-declarative"
version = "0.1.0"
edition = "2021"

[dependencies]
"#;

pub const DECLARATIVE_LIB: &'static str = r#"#[macro_export]
macro_rules! square {
    ($x:expr) => {
        $x * $x
    };
}
"#;

pub const DECLARATIVE_TEST: &'static str = r#"use mac_declarative::square;

#[test]
fn test() {
    assert_eq!(square!(7), 49);
}
"#;

pub const DERIVE_TOML: &'static str = r#"[package]
name = "mac-derive"
version = "0.1.0"
edition = "2021"

[lib]
proc-macro = true

[dependencies]
syn = "2"
quote = "1"
"#;

pub const DERIVE_LIB: &'static str = r#"use proc_macro::TokenStream;
use quote::quote;
use syn::{parse_macro_input, DeriveInput};

#[proc_macro_derive(Name)]
pub fn derive_name(input: TokenStream) -> TokenStream {
    let input = parse_macro_input!(input as DeriveInput);
    let ident = input.ident;
    let name = ident.to_string();
    quote! {
        impl #ident {
            pub fn name() -> &'static str {
                #name
            }
        }
    }
    .into()
}
"#;

pub const DERIVE_TEST: &'static str = r#"use mac_derive::Name;

#[derive(Name)]
struct Pasta;

#[test]
fn test() {
    assert_eq!(Pasta::name(), "Pasta");
}
"#;

pub const FUNCTION_TOML: &'static str = r#"[package]
name = "mac-function"
version = "0.1.0"
edition = "2021"

[lib]
proc-macro = true

[dependencies]
"#;

pub const FUNCTION_LIB: &'static str = r#"use proc_macro::TokenStream;

#[proc_macro]
pub fn make_answer(_input: TokenStream) -> TokenStream {
    "fn answer() -> u32 { 42 }".parse().unwrap()
}
"#;

pub const FUNCTION_TEST: &'static str = r#"use mac_function::make_answer;

make_answer!();

#[test]
fn test() {
    assert_eq!(answer(), 42);
}
"#;

} // verus!
