//! The dataset that the alphabet is loaded from.

use vstd::prelude::*;

verus! {

/// The Greek alphabet as a dataset document: the twenty-four letters in
/// their canonical order, each with its name and its two glyphs.
pub const GREEK_ALPHABET_JSON: &'static str = "{\n  \"letters\": [\n\
    {\"name\": \"alpha\", \"lower\": \"α\", \"upper\": \"Α\"},\n\
    {\"name\": \"beta\", \"lower\": \"β\", \"upper\": \"Β\"},\n\
    {\"name\": \"gamma\", \"lower\": \"γ\", \"upper\": \"Γ\"},\n\
    {\"name\": \"delta\", \"lower\": \"δ\", \"upper\": \"Δ\"},\n\
    {\"name\": \"epsilon\", \"lower\": \"ε\", \"upper\": \"Ε\"},\n\
    {\"name\": \"zeta\", \"lower\": \"ζ\", \"upper\": \"Ζ\"},\n\
    {\"name\": \"eta\", \"lower\": \"η\", \"upper\": \"Η\"},\n\
    {\"name\": \"theta\", \"lower\": \"θ\", \"upper\": \"Θ\"},\n\
    {\"name\": \"iota\", \"lower\": \"ι\", \"upper\": \"Ι\"},\n\
    {\"name\": \"kappa\", \"lower\": \"κ\", \"upper\": \"Κ\"},\n\
    {\"name\": \"lambda\", \"lower\": \"λ\", \"upper\": \"Λ\"},\n\
    {\"name\": \"mu\", \"lower\": \"μ\", \"upper\": \"Μ\"},\n\
    {\"name\": \"nu\", \"lower\": \"ν\", \"upper\": \"Ν\"},\n\
    {\"name\": \"xi\", \"lower\": \"ξ\", \"upper\": \"Ξ\"},\n\
    {\"name\": \"omicron\", \"lower\": \"ο\", \"upper\": \"Ο\"},\n\
    {\"name\": \"pi\", \"lower\": \"π\", \"upper\": \"Π\"},\n\
    {\"name\": \"rho\", \"lower\": \"ρ\", \"upper\": \"Ρ\"},\n\
    {\"name\": \"sigma\", \"lower\": \"σ\", \"upper\": \"Σ\"},\n\
    {\"name\": \"tau\", \"lower\": \"τ\", \"upper\": \"Τ\"},\n\
    {\"name\": \"upsilon\", \"lower\": \"υ\", \"upper\": \"Υ\"},\n\
    {\"name\": \"phi\", \"lower\": \"φ\", \"upper\": \"Φ\"},\n\
    {\"name\": \"chi\", \"lower\": \"χ\", \"upper\": \"Χ\"},\n\
    {\"name\": \"psi\", \"lower\": \"ψ\", \"upper\": \"Ψ\"},\n\
    {\"name\": \"omega\", \"lower\": \"ω\", \"upper\": \"Ω\"}\n\
  ]\n}\n";

} // verus!
