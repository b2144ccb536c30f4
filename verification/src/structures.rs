//! Late-bound structural-widget discovery: a registry of marker-tagged
//! widgets tried per scope of the design under test, plus the tab the
//! viewer currently shows.

use vstd::prelude::*;

use crate::scope::{spec_find_scope, spec_header_base, ScopeNode};
use crate::snapshots::Snapshots;
use crate::structures::branch_stack::BranchStack;
use crate::structures::branches::Btb;
use crate::structures::complete::Complete;
use crate::structures::dcache::DCache;
use crate::structures::fu::FU;
use crate::structures::issue::Issue;
use crate::structures::memunit::MemUnit;
use crate::structures::probe::{dotted, join_dotted, marker_present, var_visible};
use crate::structures::regfile::RegFile;
use crate::structures::rob::ROBTable;
use crate::structures::rs::RSTable;
use crate::structures::store_queue::StoreQueue;

pub mod branch_stack;
pub mod branches;
pub mod complete;
pub mod dcache;
pub mod fetch;
pub mod fu;
pub mod issue;
pub mod map_table;
pub mod memunit;
pub mod probe;
pub mod regfile;
pub mod rob;
pub mod rs;
pub mod store_queue;

verus! {

/// The tab of structural widgets the viewer shows.
#[derive(Clone, Copy, Debug, PartialEq, Eq, Structural)]
pub enum SelectedTab {
    RsRob,
    BStack,
    IssueFUs,
    Caches,
}

/// The tab before `t`, cyclically.
pub open spec fn spec_previous_tab(t: SelectedTab) -> SelectedTab {
    match t {
        SelectedTab::RsRob => SelectedTab::Caches,
        SelectedTab::BStack => SelectedTab::RsRob,
        SelectedTab::IssueFUs => SelectedTab::BStack,
        SelectedTab::Caches => SelectedTab::IssueFUs,
    }
}

/// The tab after `t`, cyclically.
pub open spec fn spec_next_tab(t: SelectedTab) -> SelectedTab {
    match t {
        SelectedTab::RsRob => SelectedTab::BStack,
        SelectedTab::BStack => SelectedTab::IssueFUs,
        SelectedTab::IssueFUs => SelectedTab::Caches,
        SelectedTab::Caches => SelectedTab::RsRob,
    }
}

impl SelectedTab {
    /// The previous tab, cyclically.
    pub fn previous(self) -> (r: Self)
        ensures
            r == spec_previous_tab(self),
    {
        match self {
            SelectedTab::RsRob => SelectedTab::Caches,
            SelectedTab::BStack => SelectedTab::RsRob,
            SelectedTab::IssueFUs => SelectedTab::BStack,
            SelectedTab::Caches => SelectedTab::IssueFUs,
        }
    }

    /// The next tab, cyclically.
    pub fn next(self) -> (r: Self)
        ensures
            r == spec_next_tab(self),
    {
        match self {
            SelectedTab::RsRob => SelectedTab::BStack,
            SelectedTab::BStack => SelectedTab::IssueFUs,
            SelectedTab::IssueFUs => SelectedTab::Caches,
            SelectedTab::Caches => SelectedTab::RsRob,
        }
    }
}

impl Default for SelectedTab {
    /// The viewer opens on the reservation-station / reorder-buffer tab.
    fn default() -> (r: Self)
        ensures
            r == SelectedTab::RsRob,
    {
        SelectedTab::RsRob
    }
}

/// The dotted base of the first child at or after position `i` whose
/// scope carries `marker`, in walk order.
pub open spec fn first_marked_from(
    s: Snapshots,
    base: Seq<char>,
    children: Seq<ScopeNode>,
    marker: Seq<char>,
    i: int,
) -> Option<Seq<char>>
    decreases children.len() - i,
{
    if i < 0 || i >= children.len() {
        Option::None
    } else if var_visible(s, dotted(dotted(base, children[i].name@), marker)) {
        Option::Some(dotted(base, children[i].name@))
    } else {
        first_marked_from(s, base, children, marker, i + 1)
    }
}

/// The dotted base of the first child whose scope carries `marker`.
pub open spec fn first_marked(
    s: Snapshots,
    base: Seq<char>,
    children: Seq<ScopeNode>,
    marker: Seq<char>,
) -> Option<Seq<char>> {
    first_marked_from(s, base, children, marker, 0)
}

/// What one partially completed walk pins for a widget slot: a filled
/// slot already holds the first marked child; an empty one means no
/// child before position `k` was marked.
pub open spec fn slot_partial(
    s: Snapshots,
    base: Seq<char>,
    children: Seq<ScopeNode>,
    marker: Seq<char>,
    k: int,
    found: Option<Seq<char>>,
) -> bool {
    match found {
        Option::Some(b) => first_marked(s, base, children, marker) == Option::Some(b),
        Option::None => first_marked(s, base, children, marker) == first_marked_from(
            s,
            base,
            children,
            marker,
            k,
        ),
    }
}

/// What the fallback walk pins: each widget slot holds exactly the first
/// child carrying that widget's marker, or nothing when no child does.
pub open spec fn walk_slots_match(
    s: Snapshots,
    hb: Seq<char>,
    children: Seq<ScopeNode>,
    r: Structures,
) -> bool {
    &&& (match r.rs {
        Option::Some(t) => Option::Some(t.base@),
        Option::None => Option::None,
    }) == first_marked(s, hb, children, "dbg_this_is_rs"@)
    &&& (match r.rob {
        Option::Some(t) => Option::Some(t.base@),
        Option::None => Option::None,
    }) == first_marked(s, hb, children, "dbg_this_is_rob"@)
    &&& (match r.bstack {
        Option::Some(t) => Option::Some(t.base@),
        Option::None => Option::None,
    }) == first_marked(s, hb, children, "dbg_this_is_bstack"@)
    &&& (match r.btb {
        Option::Some(t) => Option::Some(t.base@),
        Option::None => Option::None,
    }) == first_marked(s, hb, children, "dbg_this_is_btb"@)
    &&& (match r.issue {
        Option::Some(t) => Option::Some(t.base@),
        Option::None => Option::None,
    }) == first_marked(s, hb, children, "dbg_this_is_issue"@)
    &&& (match r.dcache {
        Option::Some(t) => Option::Some(t.base@),
        Option::None => Option::None,
    }) == first_marked(s, hb, children, "dbg_this_is_dcache"@)
    &&& (match r.regfile {
        Option::Some(t) => Option::Some(t.base@),
        Option::None => Option::None,
    }) == first_marked(s, hb, children, "dbg_this_is_regfile"@)
    &&& (match r.store_queue {
        Option::Some(t) => Option::Some(t.base@),
        Option::None => Option::None,
    }) == first_marked(s, hb, children, "dbg_this_is_store_queue"@)
    &&& (match r.memunit {
        Option::Some(t) => Option::Some(t.base@),
        Option::None => Option::None,
    }) == first_marked(s, hb, children, "dbg_this_is_memunit"@)
    &&& (match r.fu {
        Option::Some(t) => Option::Some(t.base@),
        Option::None => Option::None,
    }) == first_marked(s, hb, children, "dbg_this_is_fu"@)
    &&& (match r.complete {
        Option::Some(t) => Option::Some(t.base@),
        Option::None => Option::None,
    }) == first_marked(s, hb, children, "dbg_this_is_complete"@)
}

/// What the CPU branch pins: each widget sits at its fixed module path
/// under the CPU scope `cb` exactly when that path carries the widget's
/// marker.
pub open spec fn cpu_slots_match(s: Snapshots, cb: Seq<char>, r: Structures) -> bool {
    &&& (match r.rs {
        Option::Some(t) => t.base@ == dotted(cb, "rs_module"@),
        Option::None => !var_visible(s, dotted(dotted(cb, "rs_module"@), "dbg_this_is_rs"@)),
    })
    &&& (match r.rob {
        Option::Some(t) => t.base@ == dotted(cb, "rob_module"@),
        Option::None => !var_visible(s, dotted(dotted(cb, "rob_module"@), "dbg_this_is_rob"@)),
    })
    &&& (match r.bstack {
        Option::Some(t) => t.base@ == dotted(cb, "branch_stack_module"@),
        Option::None => !var_visible(s, dotted(dotted(cb, "branch_stack_module"@), "dbg_this_is_bstack"@)),
    })
    &&& (match r.btb {
        Option::Some(t) => t.base@ == dotted(cb, "btb"@),
        Option::None => !var_visible(s, dotted(dotted(cb, "btb"@), "dbg_this_is_btb"@)),
    })
    &&& (match r.issue {
        Option::Some(t) => t.base@ == dotted(cb, "issue_module"@),
        Option::None => !var_visible(s, dotted(dotted(cb, "issue_module"@), "dbg_this_is_issue"@)),
    })
    &&& (match r.dcache {
        Option::Some(t) => t.base@ == dotted(cb, "dcache_module"@),
        Option::None => !var_visible(s, dotted(dotted(cb, "dcache_module"@), "dbg_this_is_dcache"@)),
    })
    &&& (match r.regfile {
        Option::Some(t) => t.base@ == dotted(cb, "regfile_module"@),
        Option::None => !var_visible(s, dotted(dotted(cb, "regfile_module"@), "dbg_this_is_regfile"@)),
    })
    &&& (match r.store_queue {
        Option::Some(t) => t.base@ == dotted(cb, "store_queue_module"@),
        Option::None => !var_visible(s, dotted(dotted(cb, "store_queue_module"@), "dbg_this_is_store_queue"@)),
    })
    &&& (match r.memunit {
        Option::Some(t) => t.base@ == dotted(cb, "memunit_module"@),
        Option::None => !var_visible(s, dotted(dotted(cb, "memunit_module"@), "dbg_this_is_memunit"@)),
    })
    &&& (match r.fu {
        Option::Some(t) => t.base@ == dotted(cb, "fu_module"@),
        Option::None => !var_visible(s, dotted(dotted(cb, "fu_module"@), "dbg_this_is_fu"@)),
    })
    &&& (match r.complete {
        Option::Some(t) => t.base@ == dotted(cb, "complete_module"@),
        Option::None => !var_visible(s, dotted(dotted(cb, "complete_module"@), "dbg_this_is_complete"@)),
    })
}

/// No widget was discovered.
pub open spec fn no_widgets(r: Structures) -> bool {
    &&& r.rs is None
    &&& r.rob is None
    &&& r.bstack is None
    &&& r.btb is None
    &&& r.issue is None
    &&& r.dcache is None
    &&& r.regfile is None
    &&& r.store_queue is None
    &&& r.memunit is None
    &&& r.fu is None
    &&& r.complete is None
}

/// Everything discovery decides: whether the design is a CPU (some child
/// of the base scope carries the CPU marker — the first such child
/// claims the widgets at its fixed module paths), and otherwise which
/// child each widget slot holds.
pub open spec fn discovery_outcome(s: Snapshots, r: Structures) -> bool {
    match spec_header_base(s.header_model().scopes@) {
        Option::Some(hb) => match spec_find_scope(s.header_model().scopes@, seq![hb]) {
            Option::Some(tb) => {
                let cpu = first_marked(s, hb, tb.scopes@, "dbg_this_is_cpu"@);
                &&& r.is_cpu == (cpu is Some)
                &&& if r.is_cpu {
                    cpu_slots_match(s, cpu.unwrap(), r)
                } else {
                    walk_slots_match(s, hb, tb.scopes@, r)
                }
            },
            Option::None => no_widgets(r) && !r.is_cpu,
        },
        Option::None => no_widgets(r) && !r.is_cpu,
    }
}

/// The structural widgets discovered in one loaded trace, and the tab the
/// viewer currently shows.
#[derive(Clone, Debug)]
pub struct Structures {
    pub is_cpu: bool,
    pub rs: Option<RSTable>,
    pub rob: Option<ROBTable>,
    pub bstack: Option<BranchStack>,
    pub btb: Option<Btb>,
    pub issue: Option<Issue>,
    pub dcache: Option<DCache>,
    pub regfile: Option<RegFile>,
    pub store_queue: Option<StoreQueue>,
    pub memunit: Option<MemUnit>,
    pub fu: Option<FU>,
    pub complete: Option<Complete>,
    pub selected_tab: SelectedTab,
}

impl Structures {
    /// Every discovered widget has the shape its discovery establishes.
    pub open spec fn widgets_wf(self, s: Snapshots) -> bool {
        &&& self.rs matches Option::Some(t) ==> t.wf_for(s)
        &&& self.rob matches Option::Some(t) ==> t.wf_for(s)
        &&& self.bstack matches Option::Some(t) ==> t.wf_for(s)
        &&& self.btb matches Option::Some(t) ==> t.wf_for(s)
        &&& self.issue matches Option::Some(t) ==> t.wf_for(s)
        &&& self.dcache matches Option::Some(t) ==> t.wf_for(s)
        &&& self.regfile matches Option::Some(t) ==> t.wf_for(s)
        &&& self.store_queue matches Option::Some(t) ==> t.wf_for(s)
        &&& self.memunit matches Option::Some(t) ==> t.wf_for(s)
        &&& self.fu matches Option::Some(t) ==> t.wf_for(s)
        &&& self.complete matches Option::Some(t) ==> t.wf_for(s)
    }

    /// Walks the children of the base scope. A child carrying the CPU
    /// marker claims all widgets under its fixed module paths and ends
    /// the walk; otherwise each child is tried against every widget's
    /// marker, first match per widget kind.
    #[verifier::rlimit(60)]
    #[verifier::spinoff_prover]
    pub fn new(snapshots: &Snapshots) -> (r: Structures)
        requires
            snapshots.wf(),
        ensures
            r.widgets_wf(*snapshots),
            r.selected_tab == SelectedTab::RsRob,
            discovery_outcome(*snapshots, r),
    {
        let mut out = Structures {
            is_cpu: false,
            rs: Option::None,
            rob: Option::None,
            bstack: Option::None,
            btb: Option::None,
            issue: Option::None,
            dcache: Option::None,
            regfile: Option::None,
            store_queue: Option::None,
            memunit: Option::None,
            fu: Option::None,
            complete: Option::None,
            selected_tab: SelectedTab::RsRob,
        };
        let base = snapshots.get_base();
        let mut base_path: Vec<String> = Vec::new();
        base_path.push(crate::var_index::clone_string(&base));
        proof {
            assert(crate::scope::path_views(base_path@) =~= seq![
                spec_header_base(snapshots.header_model().scopes@).unwrap(),
            ]);
        }
        let testbench = match snapshots.header_ref().find_scope(&base_path) {
            Option::Some(tb) => tb,
            Option::None => {
                proof {
                    assert(discovery_outcome(*snapshots, out));
                }
                return out;
            },
        };
        let mut k: usize = 0;
        while k < testbench.scopes.len()
            invariant
                snapshots.wf(),
                k <= testbench.scopes@.len(),
                spec_find_scope(
                    snapshots.header_model().scopes@,
                    seq![spec_header_base(snapshots.header_model().scopes@).unwrap()],
                ) == Option::Some(*testbench),
                Option::Some(base@) == spec_header_base(snapshots.header_model().scopes@),
                out.widgets_wf(*snapshots),
                !out.is_cpu,
                out.selected_tab == SelectedTab::RsRob,
                first_marked(*snapshots, base@, testbench.scopes@, "dbg_this_is_cpu"@)
                    == first_marked_from(
                    *snapshots,
                    base@,
                    testbench.scopes@,
                    "dbg_this_is_cpu"@,
                    k as int,
                ),
                slot_partial(
                    *snapshots,
                    base@,
                    testbench.scopes@,
                    "dbg_this_is_rs"@,
                    k as int,
                    match out.rs {
                        Option::Some(t) => Option::Some(t.base@),
                        Option::None => Option::None,
                    },
                ),
                slot_partial(
                    *snapshots,
                    base@,
                    testbench.scopes@,
                    "dbg_this_is_rob"@,
                    k as int,
                    match out.rob {
                        Option::Some(t) => Option::Some(t.base@),
                        Option::None => Option::None,
                    },
                ),
                slot_partial(
                    *snapshots,
                    base@,
                    testbench.scopes@,
                    "dbg_this_is_bstack"@,
                    k as int,
                    match out.bstack {
                        Option::Some(t) => Option::Some(t.base@),
                        Option::None => Option::None,
                    },
                ),
                slot_partial(
                    *snapshots,
                    base@,
                    testbench.scopes@,
                    "dbg_this_is_btb"@,
                    k as int,
                    match out.btb {
                        Option::Some(t) => Option::Some(t.base@),
                        Option::None => Option::None,
                    },
                ),
                slot_partial(
                    *snapshots,
                    base@,
                    testbench.scopes@,
                    "dbg_this_is_issue"@,
                    k as int,
                    match out.issue {
                        Option::Some(t) => Option::Some(t.base@),
                        Option::None => Option::None,
                    },
                ),
                slot_partial(
                    *snapshots,
                    base@,
                    testbench.scopes@,
                    "dbg_this_is_dcache"@,
                    k as int,
                    match out.dcache {
                        Option::Some(t) => Option::Some(t.base@),
                        Option::None => Option::None,
                    },
                ),
                slot_partial(
                    *snapshots,
                    base@,
                    testbench.scopes@,
                    "dbg_this_is_regfile"@,
                    k as int,
                    match out.regfile {
                        Option::Some(t) => Option::Some(t.base@),
                        Option::None => Option::None,
                    },
                ),
                slot_partial(
                    *snapshots,
                    base@,
                    testbench.scopes@,
                    "dbg_this_is_store_queue"@,
                    k as int,
                    match out.store_queue {
                        Option::Some(t) => Option::Some(t.base@),
                        Option::None => Option::None,
                    },
                ),
                slot_partial(
                    *snapshots,
                    base@,
                    testbench.scopes@,
                    "dbg_this_is_memunit"@,
                    k as int,
                    match out.memunit {
                        Option::Some(t) => Option::Some(t.base@),
                        Option::None => Option::None,
                    },
                ),
                slot_partial(
                    *snapshots,
                    base@,
                    testbench.scopes@,
                    "dbg_this_is_fu"@,
                    k as int,
                    match out.fu {
                        Option::Some(t) => Option::Some(t.base@),
                        Option::None => Option::None,
                    },
                ),
                slot_partial(
                    *snapshots,
                    base@,
                    testbench.scopes@,
                    "dbg_this_is_complete"@,
                    k as int,
                    match out.complete {
                        Option::Some(t) => Option::Some(t.base@),
                        Option::None => Option::None,
                    },
                ),
            decreases testbench.scopes@.len() - k,
        {
            let new_base = join_dotted(base.as_str(), testbench.scopes[k].name.as_str());
            if marker_present(snapshots, new_base.as_str(), "dbg_this_is_cpu") {
                let mut cpu = Structures {
                    is_cpu: true,
                    rs: Option::None,
                    rob: Option::None,
                    bstack: Option::None,
                    btb: Option::None,
                    issue: Option::None,
                    dcache: Option::None,
                    regfile: Option::None,
                    store_queue: Option::None,
                    memunit: Option::None,
                    fu: Option::None,
                    complete: Option::None,
                    selected_tab: SelectedTab::RsRob,
                };
                let nb = new_base.as_str();
                cpu.rs = RSTable::new(join_dotted(nb, "rs_module").as_str(), snapshots);
                cpu.rob = ROBTable::new(join_dotted(nb, "rob_module").as_str(), snapshots);
                cpu.bstack = BranchStack::new(
                    join_dotted(nb, "branch_stack_module").as_str(),
                    snapshots,
                );
                cpu.btb = Btb::new(join_dotted(nb, "btb").as_str(), snapshots);
                cpu.issue = Issue::new(join_dotted(nb, "issue_module").as_str(), snapshots);
                cpu.regfile = RegFile::new(join_dotted(nb, "regfile_module").as_str(), snapshots);
                cpu.dcache = DCache::new(join_dotted(nb, "dcache_module").as_str(), snapshots);
                cpu.store_queue = StoreQueue::new(
                    join_dotted(nb, "store_queue_module").as_str(),
                    snapshots,
                );
                cpu.memunit = MemUnit::new(join_dotted(nb, "memunit_module").as_str(), snapshots);
                cpu.fu = FU::new(join_dotted(nb, "fu_module").as_str(), snapshots);
                cpu.complete = Complete::new(
                    join_dotted(nb, "complete_module").as_str(),
                    snapshots,
                );
                proof {
                    let child = testbench.scopes@[k as int];
                    assert(var_visible(
                        *snapshots,
                        dotted(dotted(base@, child.name@), "dbg_this_is_cpu"@),
                    ));
                    assert(first_marked(*snapshots, base@, testbench.scopes@, "dbg_this_is_cpu"@)
                        == Option::Some(new_base@));
                    assert(cpu_slots_match(*snapshots, new_base@, cpu));
                    assert(discovery_outcome(*snapshots, cpu));
                }
                return cpu;
            }
            let nb = new_base.as_str();
            if out.rs.is_none() {
                out.rs = RSTable::new(nb, snapshots);
            }
            if out.rob.is_none() {
                out.rob = ROBTable::new(nb, snapshots);
            }
            if out.bstack.is_none() {
                out.bstack = BranchStack::new(nb, snapshots);
            }
            if out.btb.is_none() {
                out.btb = Btb::new(nb, snapshots);
            }
            if out.issue.is_none() {
                out.issue = Issue::new(nb, snapshots);
            }
            if out.dcache.is_none() {
                out.dcache = DCache::new(nb, snapshots);
            }
            if out.regfile.is_none() {
                out.regfile = RegFile::new(nb, snapshots);
            }
            if out.store_queue.is_none() {
                out.store_queue = StoreQueue::new(nb, snapshots);
            }
            if out.memunit.is_none() {
                out.memunit = MemUnit::new(nb, snapshots);
            }
            if out.fu.is_none() {
                out.fu = FU::new(nb, snapshots);
            }
            if out.complete.is_none() {
                out.complete = Complete::new(nb, snapshots);
            }
            proof {
                let child = testbench.scopes@[k as int];
                assert(!var_visible(
                    *snapshots,
                    dotted(dotted(base@, child.name@), "dbg_this_is_cpu"@),
                ));
                assert(first_marked_from(
                    *snapshots,
                    base@,
                    testbench.scopes@,
                    "dbg_this_is_cpu"@,
                    k as int,
                ) == first_marked_from(
                    *snapshots,
                    base@,
                    testbench.scopes@,
                    "dbg_this_is_cpu"@,
                    k + 1,
                ));
                assert(slot_partial(
                    *snapshots,
                    base@,
                    testbench.scopes@,
                    "dbg_this_is_rs"@,
                    k + 1,
                    match out.rs {
                        Option::Some(t) => Option::Some(t.base@),
                        Option::None => Option::None,
                    },
                ));
                assert(slot_partial(
                    *snapshots,
                    base@,
                    testbench.scopes@,
                    "dbg_this_is_rob"@,
                    k + 1,
                    match out.rob {
                        Option::Some(t) => Option::Some(t.base@),
                        Option::None => Option::None,
                    },
                ));
                assert(slot_partial(
                    *snapshots,
                    base@,
                    testbench.scopes@,
                    "dbg_this_is_bstack"@,
                    k + 1,
                    match out.bstack {
                        Option::Some(t) => Option::Some(t.base@),
                        Option::None => Option::None,
                    },
                ));
                assert(slot_partial(
                    *snapshots,
                    base@,
                    testbench.scopes@,
                    "dbg_this_is_btb"@,
                    k + 1,
                    match out.btb {
                        Option::Some(t) => Option::Some(t.base@),
                        Option::None => Option::None,
                    },
                ));
                assert(slot_partial(
                    *snapshots,
                    base@,
                    testbench.scopes@,
                    "dbg_this_is_issue"@,
                    k + 1,
                    match out.issue {
                        Option::Some(t) => Option::Some(t.base@),
                        Option::None => Option::None,
                    },
                ));
                assert(slot_partial(
                    *snapshots,
                    base@,
                    testbench.scopes@,
                    "dbg_this_is_dcache"@,
                    k + 1,
                    match out.dcache {
                        Option::Some(t) => Option::Some(t.base@),
                        Option::None => Option::None,
                    },
                ));
                assert(slot_partial(
                    *snapshots,
                    base@,
                    testbench.scopes@,
                    "dbg_this_is_regfile"@,
                    k + 1,
                    match out.regfile {
                        Option::Some(t) => Option::Some(t.base@),
                        Option::None => Option::None,
                    },
                ));
                assert(slot_partial(
                    *snapshots,
                    base@,
                    testbench.scopes@,
                    "dbg_this_is_store_queue"@,
                    k + 1,
                    match out.store_queue {
                        Option::Some(t) => Option::Some(t.base@),
                        Option::None => Option::None,
                    },
                ));
                assert(slot_partial(
                    *snapshots,
                    base@,
                    testbench.scopes@,
                    "dbg_this_is_memunit"@,
                    k + 1,
                    match out.memunit {
                        Option::Some(t) => Option::Some(t.base@),
                        Option::None => Option::None,
                    },
                ));
                assert(slot_partial(
                    *snapshots,
                    base@,
                    testbench.scopes@,
                    "dbg_this_is_fu"@,
                    k + 1,
                    match out.fu {
                        Option::Some(t) => Option::Some(t.base@),
                        Option::None => Option::None,
                    },
                ));
                assert(slot_partial(
                    *snapshots,
                    base@,
                    testbench.scopes@,
                    "dbg_this_is_complete"@,
                    k + 1,
                    match out.complete {
                        Option::Some(t) => Option::Some(t.base@),
                        Option::None => Option::None,
                    },
                ));
            }
            k = k + 1;
        }
        proof {
            assert(first_marked_from(
                *snapshots,
                base@,
                testbench.scopes@,
                "dbg_this_is_cpu"@,
                k as int,
            ) is None);
            assert(walk_slots_match(*snapshots, base@, testbench.scopes@, out));
            assert(discovery_outcome(*snapshots, out));
        }
        out
    }

    /// Everything but the selected tab is as it was.
    pub open spec fn same_widgets(self, other: Structures) -> bool {
        self == (Structures { selected_tab: self.selected_tab, ..other })
    }

    /// Shows the next tab, cyclically.
    pub fn select_next_tab(&mut self)
        ensures
            final(self).same_widgets(*old(self)),
            final(self).selected_tab == spec_next_tab(old(self).selected_tab),
    {
        self.selected_tab = self.selected_tab.next();
    }

    /// Shows the previous tab, cyclically.
    pub fn select_previous_tab(&mut self)
        ensures
            final(self).same_widgets(*old(self)),
            final(self).selected_tab == spec_previous_tab(old(self).selected_tab),
    {
        self.selected_tab = self.selected_tab.previous();
    }
}

} // verus!
