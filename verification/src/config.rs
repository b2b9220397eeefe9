//! Configuration text builders.
//!
//! A fixed three-cell conductor configuration, completed with a
//! caller-supplied bridge table. Exercising bridge wiring needs the same
//! agent, DNA and cell sections every time; only the bridges vary.

use vstd::prelude::*;
use vstd::string::StringExecFns;

verus! {

/// The sections shared by every bridge configuration: one agent, one DNA,
/// and three cells for it.
pub open spec fn spec_bridges_config_base() -> Seq<char> {
    r#"
[[agents]]
id = "test agent"
name = "Holo Tester 1"
public_address = "HoloTester1-------------------------------------------------------------------------AHi1"
keystore_file = "holo_tester.key"

[[dnas]]
id = "bridge caller"
file = "bridge/caller_without_required.dna"
hash = "Qm328wyq38924y"

[[cells]]
id = "app1"
dna = "bridge caller"
agent = "test agent"
    [cells.storage]
    type = "file"
    path = "app1_spec_storage"

[[cells]]
id = "app2"
dna = "bridge caller"
agent = "test agent"
    [cells.storage]
    type = "file"
    path = "app2_spec_storage"

[[cells]]
id = "app3"
dna = "bridge caller"
agent = "test agent"
    [cells.storage]
    type = "file"
    path = "app3_spec_storage"

"#@
}

/// Complete the fixed three-cell configuration with the given bridge table.
pub fn bridges_config(bridges: &str) -> (r: String)
    ensures
        r@ == spec_bridges_config_base() + bridges@ + "\n"@,
{
    let mut out = String::from_str(
        r#"
[[agents]]
id = "test agent"
name = "Holo Tester 1"
public_address = "HoloTester1-------------------------------------------------------------------------AHi1"
keystore_file = "holo_tester.key"

[[dnas]]
id = "bridge caller"
file = "bridge/caller_without_required.dna"
hash = "Qm328wyq38924y"

[[cells]]
id = "app1"
dna = "bridge caller"
agent = "test agent"
    [cells.storage]
    type = "file"
    path = "app1_spec_storage"

[[cells]]
id = "app2"
dna = "bridge caller"
agent = "test agent"
    [cells.storage]
    type = "file"
    path = "app2_spec_storage"

[[cells]]
id = "app3"
dna = "bridge caller"
agent = "test agent"
    [cells.storage]
    type = "file"
    path = "app3_spec_storage"

"#,
    );
    out.append(bridges);
    out.append("\n");
    out
}

} // verus!
