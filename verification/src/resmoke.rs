//! The catalog of the tags that the test runner puts on its lines: the
//! logging and executor tags, one branch per job slot with the fixture roles
//! below it, and the generated entries for the ports of the processes.

use vstd::prelude::*;
use crate::catalog::{
    branch, catalog_leaf, catalog_node, compile, compiled_tree, entries_view, entry,
    first_invalid, lemma_entries_push, lemma_entries_view, mk_component, CatalogTree,
    ColorCatalog, InvalidPattern,
};
use crate::color::{from_rgb, rgb, Color};
use crate::palette::{
    blue_no, blue_palette, color_no, lemma_offsets_differ, palette, PaletteFamily, PALETTE_SIZE,
};
use crate::text::{decimal, decimal_text};
use crate::tree::ResmokeComponentColors;

verus! {

/// The number of port entries that are generated for each role.
pub const PORTS_PER_ROLE: usize = 10;

/// The pattern of a port tag: the role's letter, one or more digits, the last
/// digit, and a bar.
pub open spec fn port_pattern(prefix: Seq<char>, last_digit: Seq<char>) -> Seq<char> {
    prefix + r"\d+"@ + last_digit + r"\|"@
}

/// The port entries of one role: for each `i` below `count` the pattern of the
/// ports that end in `i`, with the color at `offset + i` in the role's table.
pub open spec fn role_ports(
    prefix: Seq<char>,
    family: PaletteFamily,
    offset: int,
    count: int,
) -> Seq<(Seq<char>, CatalogTree)> {
    Seq::new(
        count as nat,
        |i: int| (port_pattern(prefix, decimal(i as nat)), catalog_leaf(palette(family)[offset + i])),
    )
}

/// The port entries of a fixture: the database processes in blue, then the
/// routers in green, then the config servers in orange.
pub open spec fn fixture_ports(offset: int) -> Seq<(Seq<char>, CatalogTree)> {
    role_ports("d"@, PaletteFamily::Blue, offset, PORTS_PER_ROLE as int) + role_ports(
        "s"@,
        PaletteFamily::Green,
        offset,
        PORTS_PER_ROLE as int,
    ) + role_ports("c"@, PaletteFamily::Orange, offset, PORTS_PER_ROLE as int)
}

/// The first job slot and the other job slots never give one color to the
/// processes with the same number: the port entries at each position of the
/// two lists differ in color.
pub proof fn lemma_job_ports_differ(k: int)
    requires
        0 <= k < 3 * PORTS_PER_ROLE,
    ensures
        fixture_ports(0)[k].1.color != fixture_ports(10)[k].1.color,
{
    if k < 10 {
        lemma_offsets_differ(PaletteFamily::Blue, 0, 10, k);
    } else if k < 20 {
        lemma_offsets_differ(PaletteFamily::Green, 0, 10, k - 10);
    } else {
        lemma_offsets_differ(PaletteFamily::Orange, 0, 10, k - 20);
    }
}

/// The entry of the ports of one role that end in `last_digit`.
pub fn color_for_port(prefix: &str, last_digit: &str, color: Color) -> (policy: (
    String,
    ColorCatalog,
))
    ensures
        policy.0@ == port_pattern(prefix@, last_digit@),
        policy.1@ == catalog_leaf(color),
{
    let mut source = String::from_str(prefix);
    source.append(r"\d+");
    source.append(last_digit);
    source.append(r"\|");
    (source, mk_component(color))
}

/// The port entries of one role.
pub fn colors_for_role(prefix: &str, family: PaletteFamily, offset: usize, count: usize) -> (ports:
    Vec<(String, ColorCatalog)>)
    requires
        offset + count <= PALETTE_SIZE,
    ensures
        entries_view(ports@) == role_ports(prefix@, family, offset as int, count as int),
{
    let mut ports: Vec<(String, ColorCatalog)> = Vec::new();
    let mut i: usize = 0;
    while i < count
        invariant
            i <= count,
            offset + count <= PALETTE_SIZE,
            ports@.len() == i,
            forall|k: int|
                0 <= k < i ==> (#[trigger] ports@[k]).0@ == port_pattern(
                    prefix@,
                    decimal(k as nat),
                ) && ports@[k].1@ == catalog_leaf(palette(family)[offset + k]),
        decreases count - i,
    {
        let digit = decimal_text(i);
        let policy = color_for_port(prefix, digit.as_str(), color_no(family, offset + i));
        ports.push(policy);
        i = i + 1;
    }
    proof {
        lemma_entries_view(ports@);
        assert(entries_view(ports@) =~= role_ports(prefix@, family, offset as int, count as int));
    }
    ports
}

/// The port entries of a fixture whose colors start at `offset` in each table.
pub fn colors_for_fixture_ports_offset(offset: usize) -> (ports: Vec<(String, ColorCatalog)>)
    requires
        offset + PORTS_PER_ROLE <= PALETTE_SIZE,
    ensures
        entries_view(ports@) == fixture_ports(offset as int),
{
    let mut ports = colors_for_role("d", PaletteFamily::Blue, offset, PORTS_PER_ROLE);
    let mut routers = colors_for_role("s", PaletteFamily::Green, offset, PORTS_PER_ROLE);
    let mut configs = colors_for_role("c", PaletteFamily::Orange, offset, PORTS_PER_ROLE);
    let ghost first = ports@;
    let ghost second = routers@;
    let ghost third = configs@;
    ports.append(&mut routers);
    ports.append(&mut configs);
    proof {
        lemma_entries_view(first);
        lemma_entries_view(second);
        lemma_entries_view(third);
        lemma_entries_view(ports@);
        assert(entries_view(ports@) =~= entries_view(first) + entries_view(second) + entries_view(
            third,
        ));
    }
    ports
}

/// The port entries of the first job slot.
pub fn colors_for_fixture_ports_0() -> (ports: Vec<(String, ColorCatalog)>)
    ensures
        entries_view(ports@) == fixture_ports(0),
{
    colors_for_fixture_ports_offset(0)
}

/// The port entries of the other job slots.
pub fn colors_for_fixture_ports_1() -> (ports: Vec<(String, ColorCatalog)>)
    ensures
        entries_view(ports@) == fixture_ports(10),
{
    colors_for_fixture_ports_offset(10)
}

/// The fixture roles of a job: the router and the config server, and the
/// shards with their primary and secondary nodes.
pub open spec fn fixture_roles() -> Seq<(Seq<char>, CatalogTree)> {
    seq![
        ("s"@, catalog_leaf(blue_palette()[0])),
        ("c"@, catalog_leaf(blue_palette()[1])),
        (
            "s0"@,
            catalog_node(
                blue_palette()[2],
                seq![
                    ("prim"@, catalog_leaf(blue_palette()[3])),
                    ("sec"@, catalog_leaf(blue_palette()[4])),
                ],
            ),
        ),
        (
            "s1"@,
            catalog_node(
                blue_palette()[5],
                seq![
                    ("prim"@, catalog_leaf(blue_palette()[6])),
                    ("sec"@, catalog_leaf(blue_palette()[7])),
                ],
            ),
        ),
        ("s2"@, catalog_leaf(blue_palette()[8])),
        ("s3"@, catalog_leaf(blue_palette()[9])),
    ]
}

/// The branch of a test's own lines: whatever follows the tag, and below it
/// the port entries with the given offset.
pub open spec fn test_branch(color: Color, offset: int) -> (Seq<char>, CatalogTree) {
    (
        "js_test"@,
        catalog_node(color, seq![(".*"@, catalog_node(color, fixture_ports(offset)))]),
    )
}

/// The branch of the first job slot.
pub open spec fn job0_branch() -> (Seq<char>, CatalogTree) {
    (
        "j0"@,
        catalog_node(Color::Blue, fixture_roles().push(test_branch(Color::BrightBlue, 0))),
    )
}

/// The branch of a job slot after the first, under the given pattern.
pub open spec fn later_job_branch(source: Seq<char>) -> (Seq<char>, CatalogTree) {
    (source, catalog_node(Color::Magenta, seq![test_branch(Color::BrightMagenta, 10)]))
}

/// The branch of the second job slot.
pub open spec fn job1_branch() -> (Seq<char>, CatalogTree) {
    later_job_branch("j1"@)
}

/// The branch of every job slot after the second.
pub open spec fn other_job_branch() -> (Seq<char>, CatalogTree) {
    later_job_branch(r"j[2-9]\d*"@)
}

/// The branch of the lines of a test that no job tag precedes.
pub open spec fn bare_test_branch() -> (Seq<char>, CatalogTree) {
    (
        "js_test"@,
        catalog_node(
            Color::Magenta,
            seq![
                (".*"@, catalog_node(Color::Magenta, fixture_ports(0))),
                (r"job\d+_fixture_teardown"@, catalog_leaf(Color::Magenta)),
            ],
        ),
    )
}

/// The whole catalog.
pub open spec fn default_catalog() -> CatalogTree {
    catalog_node(
        rgb(150, 150, 150),
        seq![
            ("resmoke"@, catalog_leaf(rgb(100, 100, 100))),
            ("executor"@, catalog_leaf(rgb(40, 40, 40))),
            job0_branch(),
            job1_branch(),
            other_job_branch(),
            bare_test_branch(),
        ],
    )
}

/// The fixture roles of a job.
pub fn resmoke_fixture_colors() -> (roles: Vec<(String, ColorCatalog)>)
    ensures
        entries_view(roles@) == fixture_roles(),
{
    let shard0 = vec![
        entry("prim", mk_component(blue_no(3))),
        entry("sec", mk_component(blue_no(4))),
    ];
    let shard1 = vec![
        entry("prim", mk_component(blue_no(6))),
        entry("sec", mk_component(blue_no(7))),
    ];
    proof {
        lemma_entries_view(shard0@);
        lemma_entries_view(shard1@);
        assert(entries_view(shard0@) =~= seq![
            ("prim"@, catalog_leaf(blue_palette()[3])),
            ("sec"@, catalog_leaf(blue_palette()[4])),
        ]);
        assert(entries_view(shard1@) =~= seq![
            ("prim"@, catalog_leaf(blue_palette()[6])),
            ("sec"@, catalog_leaf(blue_palette()[7])),
        ]);
    }
    let roles = vec![
        entry("s", mk_component(blue_no(0))),
        entry("c", mk_component(blue_no(1))),
        entry("s0", branch(blue_no(2), shard0)),
        entry("s1", branch(blue_no(5), shard1)),
        entry("s2", mk_component(blue_no(8))),
        entry("s3", mk_component(blue_no(9))),
    ];
    proof {
        lemma_entries_view(roles@);
        assert(entries_view(roles@) =~= fixture_roles());
    }
    roles
}

/// The branch of a test's own lines.
pub fn test_colors(color: Color, ports: Vec<(String, ColorCatalog)>) -> (policy: (
    String,
    ColorCatalog,
))
    ensures
        policy.0@ == "js_test"@,
        policy.1@ == catalog_node(
            color,
            seq![(".*"@, catalog_node(color, entries_view(ports@)))],
        ),
{
    let inner = vec![entry(".*", branch(color, ports))];
    proof {
        lemma_entries_view(inner@);
        assert(entries_view(inner@) =~= seq![(".*"@, catalog_node(color, entries_view(ports@)))]);
    }
    entry("js_test", branch(color, inner))
}

/// The branch of the first job slot.
pub fn job0_colors() -> (policy: (String, ColorCatalog))
    ensures
        (policy.0@, policy.1@) == job0_branch(),
{
    let mut j0_children = resmoke_fixture_colors();
    let test = test_colors(Color::BrightBlue, colors_for_fixture_ports_0());
    proof {
        lemma_entries_push(j0_children@, test);
    }
    j0_children.push(test);
    entry("j0", branch(Color::Blue, j0_children))
}

/// The branch of a job slot after the first, under the given pattern.
pub fn later_job_colors(source: &str) -> (policy: (String, ColorCatalog))
    ensures
        (policy.0@, policy.1@) == later_job_branch(source@),
{
    let children = vec![test_colors(Color::BrightMagenta, colors_for_fixture_ports_1())];
    proof {
        lemma_entries_view(children@);
        assert(entries_view(children@) =~= seq![test_branch(Color::BrightMagenta, 10)]);
    }
    entry(source, branch(Color::Magenta, children))
}

/// The branch of the second job slot.
pub fn job1_colors() -> (policy: (String, ColorCatalog))
    ensures
        (policy.0@, policy.1@) == job1_branch(),
{
    later_job_colors("j1")
}

/// The branch of every job slot after the second.
pub fn other_job_colors() -> (policy: (String, ColorCatalog))
    ensures
        (policy.0@, policy.1@) == other_job_branch(),
{
    later_job_colors(r"j[2-9]\d*")
}

/// The branch of the lines of a test that no job tag precedes.
pub fn bare_test_colors() -> (policy: (String, ColorCatalog))
    ensures
        (policy.0@, policy.1@) == bare_test_branch(),
{
    let children = vec![
        entry(".*", branch(Color::Magenta, colors_for_fixture_ports_0())),
        entry(r"job\d+_fixture_teardown", mk_component(Color::Magenta)),
    ];
    proof {
        lemma_entries_view(children@);
        assert(entries_view(children@) =~= seq![
            (".*"@, catalog_node(Color::Magenta, fixture_ports(0))),
            (r"job\d+_fixture_teardown"@, catalog_leaf(Color::Magenta)),
        ]);
    }
    entry("js_test", branch(Color::Magenta, children))
}

/// The whole catalog.
pub fn default_resmoke_colors() -> (catalog: ColorCatalog)
    ensures
        catalog@ == default_catalog(),
{
    let children = vec![
        entry("resmoke", mk_component(from_rgb(100, 100, 100))),
        entry("executor", mk_component(from_rgb(40, 40, 40))),
        job0_colors(),
        job1_colors(),
        other_job_colors(),
        bare_test_colors(),
    ];
    proof {
        lemma_entries_view(children@);
        assert(entries_view(children@) =~= default_catalog().children);
    }
    branch(from_rgb(150, 150, 150), children)
}

/// The tree that the whole catalog compiles to.
pub fn resmoke_component_regexes() -> (r: Result<ResmokeComponentColors, InvalidPattern>)
    ensures
        match r {
            Ok(tree) => first_invalid(default_catalog()) is None && tree@ == compiled_tree(
                default_catalog(),
            ),
            Err(e) => first_invalid(default_catalog()) == Some(e.pattern@),
        },
{
    let catalog = default_resmoke_colors();
    compile(&catalog)
}

} // verus!
