//! The resource limits that bound what an environment may compute.

use vstd::prelude::*;

verus! {

/// The views of a list of strings.
pub open spec fn strs_view(v: Seq<String>) -> Seq<Seq<char>> {
    v.map_values(|s: String| s@)
}

/// A copy of a list of strings.
pub fn clone_strings(v: &Vec<String>) -> (r: Vec<String>)
    ensures
        r@ == v@,
{
    let r = v.clone();
    assert(r@ =~= v@);
    r
}

/// Resource limits of an environment, enforced by the control plane.
///
/// Paths are held as their text.
#[derive(Debug)]
pub struct ResourceLimits {
    /// Maximum CPU cores of the environment's sandbox; 0 means unlimited.
    pub max_cpu_cores: u32,
    /// Total RAM in megabytes for all combined operations.
    pub max_ram_mb: u32,
    /// Whether agents may use the database block.
    pub db_access: bool,
    /// Domains the environment may reach; `"*"` allows all egress.
    pub allowed_network_domains: Vec<String>,
    /// Paths the executor may read.
    pub allowed_read_paths: Vec<String>,
    /// Paths the executor may write.
    pub allowed_write_paths: Vec<String>,
}

/// The mathematical content of `ResourceLimits`.
pub struct LimitsView {
    pub max_cpu_cores: u32,
    pub max_ram_mb: u32,
    pub db_access: bool,
    pub allowed_network_domains: Seq<Seq<char>>,
    pub allowed_read_paths: Seq<Seq<char>>,
    pub allowed_write_paths: Seq<Seq<char>>,
}

impl View for ResourceLimits {
    type V = LimitsView;

    open spec fn view(&self) -> LimitsView {
        LimitsView {
            max_cpu_cores: self.max_cpu_cores,
            max_ram_mb: self.max_ram_mb,
            db_access: self.db_access,
            allowed_network_domains: strs_view(self.allowed_network_domains@),
            allowed_read_paths: strs_view(self.allowed_read_paths@),
            allowed_write_paths: strs_view(self.allowed_write_paths@),
        }
    }
}

/// The strict default limits: one core, 512 MB, no database, no network, no paths.
pub open spec fn default_limits() -> LimitsView {
    LimitsView {
        max_cpu_cores: 1,
        max_ram_mb: 512,
        db_access: false,
        allowed_network_domains: Seq::empty(),
        allowed_read_paths: Seq::empty(),
        allowed_write_paths: Seq::empty(),
    }
}

impl Default for ResourceLimits {
    /// The strict default: essentially an isolone's limits.
    fn default() -> (r: Self)
        ensures
            r@ == default_limits(),
    {
        let r = ResourceLimits {
            max_cpu_cores: 1,
            max_ram_mb: 512,
            db_access: false,
            allowed_network_domains: Vec::new(),
            allowed_read_paths: Vec::new(),
            allowed_write_paths: Vec::new(),
        };
        assert(r@.allowed_network_domains =~= Seq::<Seq<char>>::empty());
        assert(r@.allowed_read_paths =~= Seq::<Seq<char>>::empty());
        assert(r@.allowed_write_paths =~= Seq::<Seq<char>>::empty());
        r
    }
}

impl ResourceLimits {
    /// A copy of these limits.
    pub fn duplicate(&self) -> (r: Self)
        ensures
            r@ == self@,
    {
        ResourceLimits {
            max_cpu_cores: self.max_cpu_cores,
            max_ram_mb: self.max_ram_mb,
            db_access: self.db_access,
            allowed_network_domains: clone_strings(&self.allowed_network_domains),
            allowed_read_paths: clone_strings(&self.allowed_read_paths),
            allowed_write_paths: clone_strings(&self.allowed_write_paths),
        }
    }
}

} // verus!
