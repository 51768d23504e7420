//! The build planner: cmake variables and the exact command lines that
//! configure, build and install the generated C++ library.  Running the
//! planned commands is left to the caller; the planning itself is pure.
use crate::text::{decimal_i64, spec_decimal_int, spec_join};
use vstd::prelude::*;
use vstd::string::*;

verus! {

/// One `-D` variable handed to cmake.
#[derive(Debug)]
pub struct CMakeVar {
    pub name: String,
    pub value: String,
}

/// Whether a string contains the list separator cmake reserves.
pub open spec fn spec_has_semicolon(s: Seq<char>) -> bool {
    exists|i: int| 0 <= i < s.len() && s[i] == ';'
}

fn has_semicolon(s: &String) -> (r: bool)
    ensures
        r == spec_has_semicolon(s@),
{
    let n = s.as_str().unicode_len();
    let mut i: usize = 0;
    while i < n
        invariant
            i <= n == s@.len(),
            forall|j: int| 0 <= j < i ==> s@[j] != ';',
        decreases n - i,
    {
        if s.as_str().get_char(i) == ';' {
            return true;
        }
        i = i + 1;
    }
    false
}

impl CMakeVar {
    /// Builds one cmake variable.
    pub fn new(name: String, value: String) -> (r: CMakeVar)
        ensures
            r.name == name,
            r.value == value,
    {
        CMakeVar { name, value }
    }

    /// Builds a list-valued cmake variable from the given items, joined
    /// with `;`.  Fails when an item itself contains `;`, which cmake
    /// reserves as its list separator; the error carries that item.
    pub fn new_list(name: String, values: Vec<String>) -> (r: Result<CMakeVar, String>)
        ensures
            r is Ok <==> (forall|i: int|
                0 <= i < values@.len() ==> !spec_has_semicolon(#[trigger] values@[i]@)),
            r is Ok ==> r->Ok_0.name == name && r->Ok_0.value@ == spec_join(
                values@.map_values(|s: String| s@),
                ";"@,
            ),
            r is Err ==> exists|i: int|
                0 <= i < values@.len() && spec_has_semicolon(#[trigger] values@[i]@) && r->Err_0
                    == values@[i],
    {
        let mut i: usize = 0;
        while i < values.len()
            invariant
                i <= values.len(),
                forall|j: int| 0 <= j < i ==> !spec_has_semicolon(#[trigger] values@[j]@),
            decreases values.len() - i,
        {
            if has_semicolon(&values[i]) {
                return Err(values[i].clone());
            }
            i = i + 1;
        }
        let value = crate::text::join_strings(&values, ";");
        Ok(CMakeVar { name, value })
    }
}

/// Whether the library is configured and built for debugging or release.
#[derive(Clone, Copy, PartialEq, Eq, Structural, Debug)]
pub enum BuildType {
    Debug,
    Release,
}

/// The operating system the build runs on, as far as the plan cares.
#[derive(Clone, Copy, PartialEq, Eq, Structural, Debug)]
pub enum BuildOs {
    Windows,
    OtherOs,
}

/// The toolchain environment the build runs on.
#[derive(Clone, Copy, PartialEq, Eq, Structural, Debug)]
pub enum BuildEnv {
    Msvc,
    Gnu,
    OtherEnv,
}

/// One command to run: a program, its arguments and its working directory.
#[derive(Debug)]
pub struct CommandSpec {
    pub program: String,
    pub args: Vec<String>,
    pub current_dir: String,
}

/// The configuration of one cmake build-and-install run.
#[derive(Debug)]
pub struct CppLibBuilder {
    pub cmake_source_dir: String,
    pub build_dir: String,
    pub install_dir: String,
    pub num_jobs: Option<i32>,
    pub build_type: BuildType,
    pub pipe_output: bool,
    pub cmake_vars: Vec<CMakeVar>,
}

/// The build type actually configured: code linked from this toolchain
/// always links the release runtime under msvc, so debug is overridden
/// there.
pub open spec fn spec_effective_build_type(bt: BuildType, env: BuildEnv) -> BuildType {
    if env == BuildEnv::Msvc {
        BuildType::Release
    } else {
        bt
    }
}

/// The text of one `-D<name>=<value>` cmake argument.
pub open spec fn spec_dvar(name: Seq<char>, value: Seq<char>) -> Seq<char> {
    "-D"@ + name + "="@ + value
}

/// The cmake generator chosen for the platform, if any.
pub open spec fn spec_generator(os: BuildOs, env: BuildEnv) -> Option<Seq<char>> {
    if os == BuildOs::Windows && env == BuildEnv::Msvc {
        Some("NMake Makefiles"@)
    } else if os == BuildOs::Windows && env == BuildEnv::Gnu {
        Some("MinGW Makefiles"@)
    } else {
        None
    }
}

/// The spelling of a build type as cmake wants it.
pub open spec fn spec_build_type_text(bt: BuildType) -> Seq<char> {
    match bt {
        BuildType::Release => "Release"@,
        BuildType::Debug => "Debug"@,
    }
}

/// The full cmake configure argument list: the source directory, the
/// platform generator when one is forced, every user variable, and the
/// build-type and install-prefix variables last.
pub open spec fn spec_cmake_args(b: CppLibBuilder, os: BuildOs, env: BuildEnv) -> Seq<Seq<char>> {
    (match spec_generator(os, env) {
        Some(g) => seq![b.cmake_source_dir@, "-G"@, g],
        None => seq![b.cmake_source_dir@],
    }) + b.cmake_vars@.map_values(|v: CMakeVar| spec_dvar(v.name@, v.value@)) + seq![
        spec_dvar(
            "CMAKE_BUILD_TYPE"@,
            spec_build_type_text(spec_effective_build_type(b.build_type, env)),
        ),
        spec_dvar("CMAKE_INSTALL_PREFIX"@, b.install_dir@),
    ]
}

fn dvar_string(name: &String, value: &String) -> (r: String)
    ensures
        r@ == spec_dvar(name@, value@),
{
    let mut r = String::from_str("-D");
    r.append(name.as_str());
    r.append("=");
    r.append(value.as_str());
    r
}

/// The program invoked to build and install: `nmake` or `mingw32-make`
/// on Windows under the matching environment, plain `make` otherwise.
pub open spec fn spec_make_program(os: BuildOs, env: BuildEnv) -> Seq<char> {
    if os == BuildOs::Windows && env == BuildEnv::Msvc {
        "nmake"@
    } else if os == BuildOs::Windows && env == BuildEnv::Gnu {
        "mingw32-make"@
    } else {
        "make"@
    }
}

/// The build/install argument list: a `-j` job count everywhere but under
/// msvc, and the `install` target last.  Under msvc with more than one
/// job and jom available, jom takes over with its `/J` flag.
pub open spec fn spec_make_args(env: BuildEnv, jobs: int, use_jom: bool) -> Seq<Seq<char>> {
    (if use_jom {
        seq!["/J"@, spec_decimal_int(jobs)]
    } else {
        Seq::<Seq<char>>::empty()
    }) + (if env != BuildEnv::Msvc {
        seq!["-j"@ + spec_decimal_int(jobs)]
    } else {
        Seq::<Seq<char>>::empty()
    }) + seq!["install"@]
}

/// Whether jom replaces nmake: only under msvc, with parallelism asked
/// for, and with jom present on the machine.
pub open spec fn spec_use_jom(env: BuildEnv, jobs: int, jom_available: bool) -> bool {
    env == BuildEnv::Msvc && jobs > 1 && jom_available
}

impl CppLibBuilder {
    /// The job count used: the configured one, or the detected CPU count.
    pub open spec fn spec_jobs(&self, detected_cpus: usize) -> int {
        match self.num_jobs {
            Some(n) => n as int,
            None => detected_cpus as int,
        }
    }

    /// Plans the cmake configure command.
    pub fn plan_cmake_command(&self, os: BuildOs, env: BuildEnv) -> (r: CommandSpec)
        ensures
            r.program@ == "cmake"@,
            r.current_dir == self.build_dir,
            r.args@.map_values(|s: String| s@) == spec_cmake_args(*self, os, env),
    {
        let mut dvars: Vec<String> = Vec::new();
        let mut i: usize = 0;
        while i < self.cmake_vars.len()
            invariant
                i <= self.cmake_vars.len(),
                dvars@.len() == i,
                forall|k: int|
                    0 <= k < i ==> #[trigger] dvars@[k]@ == spec_dvar(
                        self.cmake_vars@[k].name@,
                        self.cmake_vars@[k].value@,
                    ),
            decreases self.cmake_vars.len() - i,
        {
            let d = dvar_string(&self.cmake_vars[i].name, &self.cmake_vars[i].value);
            dvars.push(d);
            i = i + 1;
        }
        proof {
            assert(dvars@.map_values(|s: String| s@) =~= self.cmake_vars@.map_values(
                |v: CMakeVar| spec_dvar(v.name@, v.value@),
            ));
        }
        let mut args: Vec<String> = Vec::new();
        args.push(self.cmake_source_dir.clone());
        if os == BuildOs::Windows && env == BuildEnv::Msvc {
            args.push(String::from_str("-G"));
            args.push(String::from_str("NMake Makefiles"));
        } else if os == BuildOs::Windows && env == BuildEnv::Gnu {
            args.push(String::from_str("-G"));
            args.push(String::from_str("MinGW Makefiles"));
        }
        args.append(&mut dvars);
        let bt_value = match effective_build_type(self.build_type, env) {
            BuildType::Release => String::from_str("Release"),
            BuildType::Debug => String::from_str("Debug"),
        };
        let bt_name = String::from_str("CMAKE_BUILD_TYPE");
        args.push(dvar_string(&bt_name, &bt_value));
        let prefix_name = String::from_str("CMAKE_INSTALL_PREFIX");
        args.push(dvar_string(&prefix_name, &self.install_dir));
        proof {
            assert(args@.map_values(|s: String| s@) =~= spec_cmake_args(*self, os, env));
        }
        CommandSpec {
            program: String::from_str("cmake"),
            args,
            current_dir: self.build_dir.clone(),
        }
    }

    /// Plans the build-and-install command.
    ///
    /// `detected_cpus` is the machine's CPU count (used when no job count
    /// is configured) and `jom_available` says whether jom was found.
    pub fn plan_make_command(&self, os: BuildOs, env: BuildEnv, detected_cpus: usize, jom_available: bool) -> (r:
        CommandSpec)
        requires
            detected_cpus <= i32::MAX,
        ensures
            r.current_dir == self.build_dir,
            r.program@ == if spec_use_jom(env, self.spec_jobs(detected_cpus), jom_available) {
                "jom"@
            } else {
                spec_make_program(os, env)
            },
            r.args@.map_values(|s: String| s@) == spec_make_args(
                env,
                self.spec_jobs(detected_cpus),
                spec_use_jom(env, self.spec_jobs(detected_cpus), jom_available),
            ),
    {
        let jobs: i32 = match self.num_jobs {
            Some(n) => n,
            None => detected_cpus as i32,
        };
        let use_jom = env == BuildEnv::Msvc && jobs > 1 && jom_available;
        let mut args: Vec<String> = Vec::new();
        if use_jom {
            args.push(String::from_str("/J"));
            args.push(decimal_i64(jobs as i64));
        }
        if !(env == BuildEnv::Msvc) {
            let mut j = String::from_str("-j");
            let num = decimal_i64(jobs as i64);
            j.append(num.as_str());
            args.push(j);
        }
        args.push(String::from_str("install"));
        proof {
            assert(args@.map_values(|s: String| s@) =~= spec_make_args(
                env,
                self.spec_jobs(detected_cpus),
                use_jom,
            ));
        }
        let program = if use_jom {
            String::from_str("jom")
        } else if os == BuildOs::Windows && env == BuildEnv::Msvc {
            String::from_str("nmake")
        } else if os == BuildOs::Windows && env == BuildEnv::Gnu {
            String::from_str("mingw32-make")
        } else {
            String::from_str("make")
        };
        CommandSpec { program, args, current_dir: self.build_dir.clone() }
    }
}

fn effective_build_type(bt: BuildType, env: BuildEnv) -> (r: BuildType)
    ensures
        r == spec_effective_build_type(bt, env),
{
    if env == BuildEnv::Msvc {
        BuildType::Release
    } else {
        bt
    }
}

/// Relies on num_cpus::get: the number of logical CPUs of the machine,
/// always at least one.
#[verifier::external_body]
pub fn detect_num_cpus() -> (r: usize)
    ensures
        1 <= r,
{
    num_cpus::get()
}

} // verus!
