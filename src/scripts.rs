//! The provisioning scripts shipped with the application: their names,
//! descriptions, and where they lie in the resource directory.
use vstd::prelude::*;
use vstd::string::*;

verus! {

#[derive(Debug, Clone, Copy, PartialEq, Eq, Structural)]
pub enum Script {
    InstallVPS,
    ContinueInstall,
    Uninstall,
    Build,
    TestAPI,
}

pub open spec fn filename_of(s: Script) -> Seq<char> {
    match s {
        Script::InstallVPS => "install-vps.sh"@,
        Script::ContinueInstall => "continue-install.sh"@,
        Script::Uninstall => "uninstall.sh"@,
        Script::Build => "build.sh"@,
        Script::TestAPI => "test-api.sh"@,
    }
}

pub open spec fn description_of(s: Script) -> Seq<char> {
    match s {
        Script::InstallVPS => "Instalador completo de AYMC en VPS"@,
        Script::ContinueInstall => "Continuar instalación si fue interrumpida"@,
        Script::Uninstall => "Desinstalador de AYMC del VPS"@,
        Script::Build => "Script de compilación de binarios"@,
        Script::TestAPI => "Script de prueba de API"@,
    }
}

/// All scripts, in the order in which they are listed.
pub open spec fn all_scripts() -> Seq<Script> {
    seq![
        Script::InstallVPS,
        Script::ContinueInstall,
        Script::Uninstall,
        Script::Build,
        Script::TestAPI,
    ]
}

impl Script {
    /// The script's file name.
    pub fn filename(&self) -> (r: &'static str)
        ensures
            r@ == filename_of(*self),
            r@.len() > 0,
    {
        match self {
            Script::InstallVPS => {
                proof {
                    reveal_strlit("install-vps.sh");
                }
                "install-vps.sh"
            },
            Script::ContinueInstall => {
                proof {
                    reveal_strlit("continue-install.sh");
                }
                "continue-install.sh"
            },
            Script::Uninstall => {
                proof {
                    reveal_strlit("uninstall.sh");
                }
                "uninstall.sh"
            },
            Script::Build => {
                proof {
                    reveal_strlit("build.sh");
                }
                "build.sh"
            },
            Script::TestAPI => {
                proof {
                    reveal_strlit("test-api.sh");
                }
                "test-api.sh"
            },
        }
    }

    /// A one-line description of what the script does.
    pub fn description(&self) -> (r: &'static str)
        ensures
            r@ == description_of(*self),
            r@.len() > 0,
    {
        match self {
            Script::InstallVPS => {
                proof {
                    reveal_strlit("Instalador completo de AYMC en VPS");
                }
                "Instalador completo de AYMC en VPS"
            },
            Script::ContinueInstall => {
                proof {
                    reveal_strlit("Continuar instalación si fue interrumpida");
                }
                "Continuar instalación si fue interrumpida"
            },
            Script::Uninstall => {
                proof {
                    reveal_strlit("Desinstalador de AYMC del VPS");
                }
                "Desinstalador de AYMC del VPS"
            },
            Script::Build => {
                proof {
                    reveal_strlit("Script de compilación de binarios");
                }
                "Script de compilación de binarios"
            },
            Script::TestAPI => {
                proof {
                    reveal_strlit("Script de prueba de API");
                }
                "Script de prueba de API"
            },
        }
    }
}

/// What is known of one script in the resource directory.
#[derive(Debug, Clone)]
pub struct ScriptInfo {
    pub name: String,
    pub description: String,
    pub exists: bool,
    pub size_bytes: Option<u64>,
}

/// `name` inside the directory `dir`, as `Path::join` forms it for a relative
/// name.
pub open spec fn joined(dir: Seq<char>, name: Seq<char>) -> Seq<char> {
    if dir.len() == 0 {
        name
    } else if dir.last() == '/' {
        dir + name
    } else {
        dir + "/"@ + name
    }
}

/// Finds the scripts in a resource directory.
pub struct ScriptManager {
    resource_path: String,
}

impl ScriptManager {
    pub closed spec fn dir(&self) -> Seq<char> {
        self.resource_path@
    }

    /// A manager for the scripts in the directory `resource_path`.
    pub fn new(resource_path: String) -> (r: Self)
        ensures
            r.dir() == resource_path@,
    {
        ScriptManager { resource_path }
    }

    /// The full path of `script`.
    pub fn get_script_path(&self, script: Script) -> (r: String)
        ensures
            r@ == joined(self.dir(), filename_of(script)),
    {
        let name = script.filename();
        let n = self.resource_path.as_str().unicode_len();
        let mut path = self.resource_path.clone();
        if n == 0 {
            return String::from_str(name);
        }
        if self.resource_path.as_str().get_char(n - 1) != '/' {
            path.append("/");
        }
        path.append(name);
        path
    }

    /// Every script, in a fixed order.
    pub fn list_scripts(&self) -> (r: Vec<Script>)
        ensures
            r@ == all_scripts(),
    {
        let r = vec![
            Script::InstallVPS,
            Script::ContinueInstall,
            Script::Uninstall,
            Script::Build,
            Script::TestAPI,
        ];
        assert(r@ =~= all_scripts());
        r
    }

    /// Name, description and presence of every script, in the order of
    /// `list_scripts`. `found[i]` tells whether the i-th script's file exists
    /// and, if its size could be read, its size; a script without an entry
    /// there counts as missing. A missing file has no size.
    pub fn get_scripts_info(&self, found: &Vec<(bool, Option<u64>)>) -> (r: Vec<ScriptInfo>)
        ensures
            r@.len() == all_scripts().len(),
            forall|i: int|
                0 <= i < r@.len() ==> {
                    let info = #[trigger] r@[i];
                    let exists = i < found@.len() && found@[i].0;
                    &&& info.name@ == filename_of(all_scripts()[i])
                    &&& info.description@ == description_of(all_scripts()[i])
                    &&& info.exists == exists
                    &&& info.size_bytes == (if exists {
                        found@[i].1
                    } else {
                        None
                    })
                },
    {
        let scripts = self.list_scripts();
        let mut out: Vec<ScriptInfo> = Vec::new();
        let mut i: usize = 0;
        while i < scripts.len()
            invariant
                scripts@ == all_scripts(),
                i <= scripts@.len(),
                out@.len() == i,
                forall|k: int|
                    0 <= k < i ==> {
                        let info = #[trigger] out@[k];
                        let exists = k < found@.len() && found@[k].0;
                        &&& info.name@ == filename_of(all_scripts()[k])
                        &&& info.description@ == description_of(all_scripts()[k])
                        &&& info.exists == exists
                        &&& info.size_bytes == (if exists {
                            found@[k].1
                        } else {
                            None
                        })
                    },
            decreases scripts@.len() - i,
        {
            let script = scripts[i];
            let exists = i < found.len() && found[i].0;
            let size_bytes = if exists {
                found[i].1
            } else {
                None
            };
            out.push(
                ScriptInfo {
                    name: String::from_str(script.filename()),
                    description: String::from_str(script.description()),
                    exists,
                    size_bytes,
                },
            );
            i = i + 1;
        }
        out
    }
}

} // verus!
