/// Derived storage addresses: labels, discriminators and bump bytes.
pub mod addr;
/// Protocol-default constants (WAD scale, basis points, rate denominators).
pub mod params;
/// The Market record and its seeding.
pub mod market;
/// The Vault record and its seeding.
pub mod vault;
/// The per-invocation account bundles and the seeding steps they undergo.
pub mod instructions;
/// A deployment's derived-address storage and the two initializer
/// operations, with their creation policies (create-or-reuse vs. strict).
pub mod deploy;
