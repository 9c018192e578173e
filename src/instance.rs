use vstd::prelude::*;

verus! {

/// The host functions the addon needs, in the order they are looked up.
#[derive(Clone, Copy, Debug, PartialEq, Eq, Structural)]
pub enum HostFunction {
    /// `e0`: the path of the host's ini file.
    ConfigPath,
    /// `e3`: a line in the host's log file.
    Log,
    /// `e5`: the host's colour pointers.
    Colors,
    /// `e6`: the bit mask of the host's UI settings.
    UiSettings,
    /// `e7`: the modifier keys, as virtual key codes.
    Modifiers,
    /// `e8`: a line in the host's log window, with `<c=#RRGGBB>text</c>` colours.
    LogWindow,
    /// `e9`: an event added to the host's event processing.
    AddEvent,
}

/// How many host functions must resolve.
pub const HOST_FUNCTION_COUNT: usize = 7;

impl HostFunction {
    /// The position of this function among the lookups.
    pub open spec fn spec_index(self) -> int {
        match self {
            HostFunction::ConfigPath => 0,
            HostFunction::Log => 1,
            HostFunction::Colors => 2,
            HostFunction::UiSettings => 3,
            HostFunction::Modifiers => 4,
            HostFunction::LogWindow => 5,
            HostFunction::AddEvent => 6,
        }
    }

    /// The function at position `i` of the lookups.
    pub fn at(i: usize) -> (r: HostFunction)
        requires
            i < HOST_FUNCTION_COUNT,
        ensures
            r.spec_index() == i,
    {
        if i == 0 {
            HostFunction::ConfigPath
        } else if i == 1 {
            HostFunction::Log
        } else if i == 2 {
            HostFunction::Colors
        } else if i == 3 {
            HostFunction::UiSettings
        } else if i == 4 {
            HostFunction::Modifiers
        } else if i == 5 {
            HostFunction::LogWindow
        } else {
            HostFunction::AddEvent
        }
    }

    /// The NUL-terminated name under which the host module exports the function.
    pub open spec fn spec_symbol(self) -> Seq<char> {
        match self {
            HostFunction::ConfigPath => seq!['e', '0', '\0'],
            HostFunction::Log => seq!['e', '3', '\0'],
            HostFunction::Colors => seq!['e', '5', '\0'],
            HostFunction::UiSettings => seq!['e', '6', '\0'],
            HostFunction::Modifiers => seq!['e', '7', '\0'],
            HostFunction::LogWindow => seq!['e', '8', '\0'],
            HostFunction::AddEvent => seq!['e', '9', '\0'],
        }
    }

    pub fn symbol(&self) -> (r: &'static str)
        ensures
            r@ == self.spec_symbol(),
    {
        match self {
            HostFunction::ConfigPath => {
                proof {
                    reveal_strlit("e0\0");
                }
                "e0\0"
            },
            HostFunction::Log => {
                proof {
                    reveal_strlit("e3\0");
                }
                "e3\0"
            },
            HostFunction::Colors => {
                proof {
                    reveal_strlit("e5\0");
                }
                "e5\0"
            },
            HostFunction::UiSettings => {
                proof {
                    reveal_strlit("e6\0");
                }
                "e6\0"
            },
            HostFunction::Modifiers => {
                proof {
                    reveal_strlit("e7\0");
                }
                "e7\0"
            },
            HostFunction::LogWindow => {
                proof {
                    reveal_strlit("e8\0");
                }
                "e8\0"
            },
            HostFunction::AddEvent => {
                proof {
                    reveal_strlit("e9\0");
                }
                "e9\0"
            },
        }
    }
}

/// Every lookup found its symbol.
pub open spec fn all_resolved(lookups: Seq<Option<usize>>) -> bool {
    forall|i: int| 0 <= i < lookups.len() ==> (#[trigger] lookups[i]) is Some
}

/// The host module handle, its version and the resolved host functions, each an
/// address in the host module.
#[derive(Debug)]
pub struct ArcInstance {
    pub handle: usize,
    pub version: Option<Vec<u8>>,
    pub e0: usize,
    pub e3: usize,
    pub e5: usize,
    pub e6: usize,
    pub e7: usize,
    pub e8: usize,
    pub e9: usize,
}

impl ArcInstance {
    /// The address stored for `f`.
    pub open spec fn spec_address(self, f: HostFunction) -> usize {
        match f {
            HostFunction::ConfigPath => self.e0,
            HostFunction::Log => self.e3,
            HostFunction::Colors => self.e5,
            HostFunction::UiSettings => self.e6,
            HostFunction::Modifiers => self.e7,
            HostFunction::LogWindow => self.e8,
            HostFunction::AddEvent => self.e9,
        }
    }

    /// The instance holds `handle`, `version`, and for each host function the
    /// address its lookup found.
    pub open spec fn built_from(
        self,
        handle: usize,
        version: Option<Vec<u8>>,
        lookups: Seq<Option<usize>>,
    ) -> bool {
        &&& self.handle == handle
        &&& self.version == version
        &&& forall|f: HostFunction| Some(#[trigger] self.spec_address(f)) == lookups[f.spec_index()]
    }

    pub fn address(&self, f: HostFunction) -> (r: usize)
        ensures
            r == self.spec_address(f),
    {
        match f {
            HostFunction::ConfigPath => self.e0,
            HostFunction::Log => self.e3,
            HostFunction::Colors => self.e5,
            HostFunction::UiSettings => self.e6,
            HostFunction::Modifiers => self.e7,
            HostFunction::LogWindow => self.e8,
            HostFunction::AddEvent => self.e9,
        }
    }

    /// Builds the instance from the lookups of the host functions, given in the
    /// order of `HostFunction`. All or nothing: one unresolved symbol gives `None`.
    pub fn new(handle: usize, version: Option<Vec<u8>>, lookups: [Option<usize>; 7]) -> (r: Option<
        ArcInstance,
    >)
        ensures
            r is Some <==> all_resolved(lookups@),
            r is Some ==> r->0.built_from(handle, version, lookups@),
    {
        let mut i: usize = 0;
        while i < HOST_FUNCTION_COUNT
            invariant
                i <= HOST_FUNCTION_COUNT,
                lookups@.len() == HOST_FUNCTION_COUNT,
                forall|j: int| 0 <= j < i ==> (#[trigger] lookups@[j]) is Some,
            decreases HOST_FUNCTION_COUNT - i,
        {
            if lookups[i].is_none() {
                return None;
            }
            i = i + 1;
        }
        let r = ArcInstance {
            handle,
            version,
            e0: lookups[0].unwrap(),
            e3: lookups[1].unwrap(),
            e5: lookups[2].unwrap(),
            e6: lookups[3].unwrap(),
            e7: lookups[4].unwrap(),
            e8: lookups[5].unwrap(),
            e9: lookups[6].unwrap(),
        };
        assert forall|f: HostFunction| Some(#[trigger] r.spec_address(f)) == lookups@[f.spec_index()] by {
            match f {
                HostFunction::ConfigPath => {},
                HostFunction::Log => {},
                HostFunction::Colors => {},
                HostFunction::UiSettings => {},
                HostFunction::Modifiers => {},
                HostFunction::LogWindow => {},
                HostFunction::AddEvent => {},
            }
        }
        Some(r)
    }

    /// Sets the process-wide instance from the lookups; `true` when every host
    /// function resolved.
    pub fn init(
        global: &mut Option<ArcInstance>,
        handle: usize,
        version: Option<Vec<u8>>,
        lookups: [Option<usize>; 7],
    ) -> (r: bool)
        ensures
            r == (*final(global) is Some),
            r <==> all_resolved(lookups@),
            r ==> (*final(global))->0.built_from(handle, version, lookups@),
    {
        *global = ArcInstance::new(handle, version, lookups);
        global.is_some()
    }
}

/// The address of a host function, or `None` before a successful initialisation.
pub fn host_function(global: &Option<ArcInstance>, f: HostFunction) -> (r: Option<usize>)
    ensures
        global is None ==> r is None,
        global is Some ==> r == Some(global->0.spec_address(f)),
{
    match global {
        Some(instance) => Some(instance.address(f)),
        None => None,
    }
}

/// A missing host function leaves the addon without an instance, however many of
/// the others resolved: partial success is never observable.
pub proof fn lemma_one_missing_symbol_fails(lookups: Seq<Option<usize>>, f: HostFunction)
    requires
        lookups.len() == HOST_FUNCTION_COUNT,
        lookups[f.spec_index()] is None,
    ensures
        !all_resolved(lookups),
{
}

} // verus!
