//! The configuration of an embedded Python interpreter.

use vstd::prelude::*;

use crate::allocator::PythonRawAllocator;
use crate::extension::ExtensionModule;
use crate::extension::ExtensionModuleView;
use crate::run_mode::PythonRunMode;
use crate::run_mode::PythonRunModeView;
use crate::terminfo::TerminfoResolution;
use crate::terminfo::TerminfoResolutionView;

verus! {

/// Holds the configuration of an embedded Python interpreter.
///
/// Each instance contains the total state to define the run-time behavior of
/// a Python interpreter. It is a plain value: making or changing one touches
/// nothing else, and no field depends on another.
#[derive(Clone, Debug)]
pub struct PythonConfig {
    /// Name of encoding for stdio handles.
    pub standard_io_encoding: Option<String>,
    /// Name of encoding error mode for stdio handles.
    pub standard_io_errors: Option<String>,
    /// Python optimization level.
    pub opt_level: i32,
    /// Whether to load our custom frozen importlib bootstrap modules.
    pub use_custom_importlib: bool,
    /// Whether to load the filesystem-based sys.meta_path finder.
    pub filesystem_importer: bool,
    /// Filesystem paths to add to sys.path.
    ///
    /// ``$ORIGIN`` stands for the directory of the application; whoever
    /// starts the interpreter resolves it, this value keeps it as written.
    pub sys_paths: Vec<String>,
    /// Controls whether to detect comparing bytes/bytearray with str.
    ///
    /// If 1, issues a warning. If 2 or greater, raises a BytesWarning
    /// exception.
    pub bytes_warning: i32,
    /// Whether to load the site.py module at initialization time.
    pub import_site: bool,
    /// Whether to load a user-specific site module at initialization time.
    pub import_user_site: bool,
    /// Whether to ignore various PYTHON* environment variables.
    pub ignore_python_env: bool,
    /// Whether to enter interactive mode after executing a script or a command.
    pub inspect: bool,
    /// Whether to put interpreter in interactive mode.
    pub interactive: bool,
    /// Whether to enable isolated mode.
    pub isolated: bool,
    /// If set, set the Windows filesystem encoding to mbcs and the filesystem
    /// error handler to replace.
    pub legacy_windows_fs_encoding: bool,
    /// Whether io.File instead of io.WindowsConsoleIO for sys.stdin, sys.stdout,
    /// and sys.stderr.
    pub legacy_windows_stdio: bool,
    /// Whether to write ``.pyc`` files when importing ``.py`` files from the
    /// filesystem. This is typically irrelevant since modules are imported
    /// from memory.
    pub write_bytecode: bool,
    /// Whether stdout and stderr streams should be unbuffered.
    pub unbuffered_stdio: bool,
    /// Whether to enable parser debugging output.
    pub parser_debug: bool,
    /// Whether to enable quiet mode.
    pub quiet: bool,
    /// Whether to use the PYTHONHASHSEED environment variable to initialize the
    /// hash seed.
    pub use_hash_seed: bool,
    /// Controls the level of the verbose mode for the interpreter.
    pub verbose: i32,
    /// Reference to packed resources data.
    ///
    /// The data holds Python modules and lives as long as the program. It is
    /// parsed when the interpreter starts, not here.
    pub packed_resources: &'static [u8],
    /// Extra extension modules to make available to the interpreter.
    ///
    /// Names are not checked to differ: see
    /// [`PythonConfig::extension_names_unique`].
    pub extra_extension_modules: Vec<ExtensionModule>,
    /// Whether to set sys.argvb with bytes versions of process arguments.
    ///
    /// On Windows, bytes will be UTF-16. On POSIX, bytes will be raw char*
    /// values passed to `int main()`.
    pub argvb: bool,
    /// Whether to set sys.frozen=True.
    ///
    /// Setting this will enable Python to emulate "frozen" binaries, such as
    /// those used by PyInstaller.
    pub sys_frozen: bool,
    /// Whether to set sys._MEIPASS to the directory of the executable.
    ///
    /// Setting this will enable Python to emulate PyInstaller's behavior
    /// of setting this attribute.
    pub sys_meipass: bool,
    /// Which memory allocator to use for the raw domain.
    pub raw_allocator: PythonRawAllocator,
    /// How to resolve the `terminfo` database.
    pub terminfo_resolution: TerminfoResolution,
    /// Environment variable holding the directory to write a loaded modules file.
    ///
    /// If this value is set and the environment variable it names is set,
    /// the interpreter writes on shutdown a ``modules-<random>`` file to that
    /// directory, with a ``\n`` delimited list of the modules loaded in
    /// ``sys.modules``. The variable is read then, not here.
    pub write_modules_directory_env: Option<String>,
    /// Defines what code to run by default.
    pub run: PythonRunMode,
}

/// A configuration as a mathematical value, field by field.
pub struct PythonConfigView {
    pub standard_io_encoding: Option<Seq<char>>,
    pub standard_io_errors: Option<Seq<char>>,
    pub opt_level: i32,
    pub use_custom_importlib: bool,
    pub filesystem_importer: bool,
    pub sys_paths: Seq<Seq<char>>,
    pub bytes_warning: i32,
    pub import_site: bool,
    pub import_user_site: bool,
    pub ignore_python_env: bool,
    pub inspect: bool,
    pub interactive: bool,
    pub isolated: bool,
    pub legacy_windows_fs_encoding: bool,
    pub legacy_windows_stdio: bool,
    pub write_bytecode: bool,
    pub unbuffered_stdio: bool,
    pub parser_debug: bool,
    pub quiet: bool,
    pub use_hash_seed: bool,
    pub verbose: i32,
    pub packed_resources: Seq<u8>,
    pub extra_extension_modules: Seq<ExtensionModuleView>,
    pub argvb: bool,
    pub sys_frozen: bool,
    pub sys_meipass: bool,
    pub raw_allocator: PythonRawAllocator,
    pub terminfo_resolution: TerminfoResolutionView,
    pub write_modules_directory_env: Option<Seq<char>>,
    pub run: PythonRunModeView,
}

impl View for PythonConfig {
    type V = PythonConfigView;

    open spec fn view(&self) -> PythonConfigView {
        PythonConfigView {
            standard_io_encoding: self.standard_io_encoding.deep_view(),
            standard_io_errors: self.standard_io_errors.deep_view(),
            opt_level: self.opt_level,
            use_custom_importlib: self.use_custom_importlib,
            filesystem_importer: self.filesystem_importer,
            sys_paths: self.sys_paths.deep_view(),
            bytes_warning: self.bytes_warning,
            import_site: self.import_site,
            import_user_site: self.import_user_site,
            ignore_python_env: self.ignore_python_env,
            inspect: self.inspect,
            interactive: self.interactive,
            isolated: self.isolated,
            legacy_windows_fs_encoding: self.legacy_windows_fs_encoding,
            legacy_windows_stdio: self.legacy_windows_stdio,
            write_bytecode: self.write_bytecode,
            unbuffered_stdio: self.unbuffered_stdio,
            parser_debug: self.parser_debug,
            quiet: self.quiet,
            use_hash_seed: self.use_hash_seed,
            verbose: self.verbose,
            packed_resources: self.packed_resources@,
            extra_extension_modules: self.extra_extension_modules.deep_view(),
            argvb: self.argvb,
            sys_frozen: self.sys_frozen,
            sys_meipass: self.sys_meipass,
            raw_allocator: self.raw_allocator,
            terminfo_resolution: self.terminfo_resolution@,
            write_modules_directory_env: self.write_modules_directory_env.deep_view(),
            run: self.run@,
        }
    }
}

impl PythonConfigView {
    /// The configuration that every program starts from.
    ///
    /// Every switch is off but `ignore_python_env`, every level is 0, every
    /// list and the resources are empty, no text is set, nothing is run, and
    /// the terminfo database is resolved dynamically. The allocator alone
    /// depends on the target: see
    /// [`PythonRawAllocator::spec_default_for_target`].
    pub open spec fn default_for_target(windows: bool) -> PythonConfigView {
        PythonConfigView {
            standard_io_encoding: None,
            standard_io_errors: None,
            opt_level: 0,
            use_custom_importlib: false,
            filesystem_importer: false,
            sys_paths: Seq::empty(),
            bytes_warning: 0,
            import_site: false,
            import_user_site: false,
            ignore_python_env: true,
            inspect: false,
            interactive: false,
            isolated: false,
            legacy_windows_fs_encoding: false,
            legacy_windows_stdio: false,
            write_bytecode: false,
            unbuffered_stdio: false,
            parser_debug: false,
            quiet: false,
            use_hash_seed: false,
            verbose: 0,
            packed_resources: Seq::empty(),
            extra_extension_modules: Seq::empty(),
            argvb: false,
            sys_frozen: false,
            sys_meipass: false,
            raw_allocator: PythonRawAllocator::spec_default_for_target(windows),
            terminfo_resolution: TerminfoResolutionView::Dynamic,
            write_modules_directory_env: None,
            run: PythonRunModeView::Noop,
        }
    }

    /// Whether no two extension modules share a name.
    pub open spec fn extension_names_unique(self) -> bool {
        forall|i: int, j: int|
            0 <= i < j < self.extra_extension_modules.len()
                ==> self.extra_extension_modules[i].name != self.extra_extension_modules[j].name
    }
}

/// The resources of a configuration that bundles none.
fn empty_resources() -> (resources: &'static [u8])
    ensures
        resources@.len() == 0,
{
    &[]
}

impl PythonConfig {
    /// Creates the default configuration for the target family. `windows`
    /// says whether the program is built for a Windows target.
    pub fn default_for_target(windows: bool) -> (config: PythonConfig)
        ensures
            config@ == PythonConfigView::default_for_target(windows),
    {
        let config = PythonConfig {
            standard_io_encoding: None,
            standard_io_errors: None,
            opt_level: 0,
            use_custom_importlib: false,
            filesystem_importer: false,
            sys_paths: Vec::new(),
            bytes_warning: 0,
            import_site: false,
            import_user_site: false,
            ignore_python_env: true,
            inspect: false,
            interactive: false,
            isolated: false,
            legacy_windows_fs_encoding: false,
            legacy_windows_stdio: false,
            write_bytecode: false,
            unbuffered_stdio: false,
            parser_debug: false,
            quiet: false,
            use_hash_seed: false,
            verbose: 0,
            packed_resources: empty_resources(),
            extra_extension_modules: Vec::new(),
            argvb: false,
            sys_frozen: false,
            sys_meipass: false,
            raw_allocator: PythonRawAllocator::default_for_target(windows),
            terminfo_resolution: TerminfoResolution::Dynamic,
            write_modules_directory_env: None,
            run: PythonRunMode::Noop,
        };
        proof {
            assert(config.sys_paths.deep_view() =~= Seq::empty());
            assert(config.extra_extension_modules.deep_view() =~= Seq::empty());
            assert(config.packed_resources@ =~= Seq::empty());
        }
        config
    }

    /// Whether no two extension modules share a name.
    ///
    /// A configuration may hold modules of one name; nothing here rejects
    /// them. Whoever registers the modules with the interpreter can ask this
    /// first.
    pub fn extension_names_unique(&self) -> (unique: bool)
        ensures
            unique == self@.extension_names_unique(),
    {
        let modules = &self.extra_extension_modules;
        let ghost views = self@.extra_extension_modules;
        let mut j: usize = 0;
        while j < modules.len()
            invariant
                j <= modules@.len(),
                views == self@.extra_extension_modules,
                views == modules.deep_view(),
                forall|a: int, b: int| 0 <= a < b < j ==> views[a].name != views[b].name,
            decreases modules@.len() - j,
        {
            let mut i: usize = 0;
            while i < j
                invariant
                    i <= j < modules@.len(),
                    views == self@.extra_extension_modules,
                    views == modules.deep_view(),
                    forall|a: int| 0 <= a < i ==> views[a].name != views[j as int].name,
                decreases j - i,
            {
                if modules[i].same_name(&modules[j]) {
                    assert(views[i as int].name == views[j as int].name);
                    return false;
                }
                i += 1;
            }
            j += 1;
        }
        true
    }

    /// Sets `standard_io_encoding` and leaves every other field as it is.
    pub fn with_standard_io_encoding(
        self,
        standard_io_encoding: Option<String>,
    ) -> (config: PythonConfig)
        ensures
            config == (PythonConfig { standard_io_encoding, ..self }),
    {
        PythonConfig { standard_io_encoding, ..self }
    }

    /// Sets `standard_io_errors` and leaves every other field as it is.
    pub fn with_standard_io_errors(
        self,
        standard_io_errors: Option<String>,
    ) -> (config: PythonConfig)
        ensures
            config == (PythonConfig { standard_io_errors, ..self }),
    {
        PythonConfig { standard_io_errors, ..self }
    }

    /// Sets `opt_level` and leaves every other field as it is.
    pub fn with_opt_level(self, opt_level: i32) -> (config: PythonConfig)
        ensures
            config == (PythonConfig { opt_level, ..self }),
    {
        PythonConfig { opt_level, ..self }
    }

    /// Sets `use_custom_importlib` and leaves every other field as it is.
    pub fn with_use_custom_importlib(self, use_custom_importlib: bool) -> (config: PythonConfig)
        ensures
            config == (PythonConfig { use_custom_importlib, ..self }),
    {
        PythonConfig { use_custom_importlib, ..self }
    }

    /// Sets `filesystem_importer` and leaves every other field as it is.
    pub fn with_filesystem_importer(self, filesystem_importer: bool) -> (config: PythonConfig)
        ensures
            config == (PythonConfig { filesystem_importer, ..self }),
    {
        PythonConfig { filesystem_importer, ..self }
    }

    /// Sets `sys_paths` and leaves every other field as it is.
    pub fn with_sys_paths(self, sys_paths: Vec<String>) -> (config: PythonConfig)
        ensures
            config == (PythonConfig { sys_paths, ..self }),
    {
        PythonConfig { sys_paths, ..self }
    }

    /// Sets `bytes_warning` and leaves every other field as it is.
    pub fn with_bytes_warning(self, bytes_warning: i32) -> (config: PythonConfig)
        ensures
            config == (PythonConfig { bytes_warning, ..self }),
    {
        PythonConfig { bytes_warning, ..self }
    }

    /// Sets `import_site` and leaves every other field as it is.
    pub fn with_import_site(self, import_site: bool) -> (config: PythonConfig)
        ensures
            config == (PythonConfig { import_site, ..self }),
    {
        PythonConfig { import_site, ..self }
    }

    /// Sets `import_user_site` and leaves every other field as it is.
    pub fn with_import_user_site(self, import_user_site: bool) -> (config: PythonConfig)
        ensures
            config == (PythonConfig { import_user_site, ..self }),
    {
        PythonConfig { import_user_site, ..self }
    }

    /// Sets `ignore_python_env` and leaves every other field as it is.
    pub fn with_ignore_python_env(self, ignore_python_env: bool) -> (config: PythonConfig)
        ensures
            config == (PythonConfig { ignore_python_env, ..self }),
    {
        PythonConfig { ignore_python_env, ..self }
    }

    /// Sets `inspect` and leaves every other field as it is.
    pub fn with_inspect(self, inspect: bool) -> (config: PythonConfig)
        ensures
            config == (PythonConfig { inspect, ..self }),
    {
        PythonConfig { inspect, ..self }
    }

    /// Sets `interactive` and leaves every other field as it is.
    pub fn with_interactive(self, interactive: bool) -> (config: PythonConfig)
        ensures
            config == (PythonConfig { interactive, ..self }),
    {
        PythonConfig { interactive, ..self }
    }

    /// Sets `isolated` and leaves every other field as it is.
    pub fn with_isolated(self, isolated: bool) -> (config: PythonConfig)
        ensures
            config == (PythonConfig { isolated, ..self }),
    {
        PythonConfig { isolated, ..self }
    }

    /// Sets `legacy_windows_fs_encoding` and leaves every other field as it is.
    pub fn with_legacy_windows_fs_encoding(
        self,
        legacy_windows_fs_encoding: bool,
    ) -> (config: PythonConfig)
        ensures
            config == (PythonConfig { legacy_windows_fs_encoding, ..self }),
    {
        PythonConfig { legacy_windows_fs_encoding, ..self }
    }

    /// Sets `legacy_windows_stdio` and leaves every other field as it is.
    pub fn with_legacy_windows_stdio(self, legacy_windows_stdio: bool) -> (config: PythonConfig)
        ensures
            config == (PythonConfig { legacy_windows_stdio, ..self }),
    {
        PythonConfig { legacy_windows_stdio, ..self }
    }

    /// Sets `write_bytecode` and leaves every other field as it is.
    pub fn with_write_bytecode(self, write_bytecode: bool) -> (config: PythonConfig)
        ensures
            config == (PythonConfig { write_bytecode, ..self }),
    {
        PythonConfig { write_bytecode, ..self }
    }

    /// Sets `unbuffered_stdio` and leaves every other field as it is.
    pub fn with_unbuffered_stdio(self, unbuffered_stdio: bool) -> (config: PythonConfig)
        ensures
            config == (PythonConfig { unbuffered_stdio, ..self }),
    {
        PythonConfig { unbuffered_stdio, ..self }
    }

    /// Sets `parser_debug` and leaves every other field as it is.
    pub fn with_parser_debug(self, parser_debug: bool) -> (config: PythonConfig)
        ensures
            config == (PythonConfig { parser_debug, ..self }),
    {
        PythonConfig { parser_debug, ..self }
    }

    /// Sets `quiet` and leaves every other field as it is.
    pub fn with_quiet(self, quiet: bool) -> (config: PythonConfig)
        ensures
            config == (PythonConfig { quiet, ..self }),
    {
        PythonConfig { quiet, ..self }
    }

    /// Sets `use_hash_seed` and leaves every other field as it is.
    pub fn with_use_hash_seed(self, use_hash_seed: bool) -> (config: PythonConfig)
        ensures
            config == (PythonConfig { use_hash_seed, ..self }),
    {
        PythonConfig { use_hash_seed, ..self }
    }

    /// Sets `verbose` and leaves every other field as it is.
    pub fn with_verbose(self, verbose: i32) -> (config: PythonConfig)
        ensures
            config == (PythonConfig { verbose, ..self }),
    {
        PythonConfig { verbose, ..self }
    }

    /// Sets `packed_resources` and leaves every other field as it is.
    pub fn with_packed_resources(self, packed_resources: &'static [u8]) -> (config: PythonConfig)
        ensures
            config == (PythonConfig { packed_resources, ..self }),
    {
        PythonConfig { packed_resources, ..self }
    }

    /// Sets `extra_extension_modules` and leaves every other field as it is.
    pub fn with_extra_extension_modules(
        self,
        extra_extension_modules: Vec<ExtensionModule>,
    ) -> (config: PythonConfig)
        ensures
            config == (PythonConfig { extra_extension_modules, ..self }),
    {
        PythonConfig { extra_extension_modules, ..self }
    }

    /// Sets `argvb` and leaves every other field as it is.
    pub fn with_argvb(self, argvb: bool) -> (config: PythonConfig)
        ensures
            config == (PythonConfig { argvb, ..self }),
    {
        PythonConfig { argvb, ..self }
    }

    /// Sets `sys_frozen` and leaves every other field as it is.
    pub fn with_sys_frozen(self, sys_frozen: bool) -> (config: PythonConfig)
        ensures
            config == (PythonConfig { sys_frozen, ..self }),
    {
        PythonConfig { sys_frozen, ..self }
    }

    /// Sets `sys_meipass` and leaves every other field as it is.
    pub fn with_sys_meipass(self, sys_meipass: bool) -> (config: PythonConfig)
        ensures
            config == (PythonConfig { sys_meipass, ..self }),
    {
        PythonConfig { sys_meipass, ..self }
    }

    /// Sets `raw_allocator` and leaves every other field as it is.
    pub fn with_raw_allocator(self, raw_allocator: PythonRawAllocator) -> (config: PythonConfig)
        ensures
            config == (PythonConfig { raw_allocator, ..self }),
    {
        PythonConfig { raw_allocator, ..self }
    }

    /// Sets `terminfo_resolution` and leaves every other field as it is.
    pub fn with_terminfo_resolution(
        self,
        terminfo_resolution: TerminfoResolution,
    ) -> (config: PythonConfig)
        ensures
            config == (PythonConfig { terminfo_resolution, ..self }),
    {
        PythonConfig { terminfo_resolution, ..self }
    }

    /// Sets `write_modules_directory_env` and leaves every other field as it is.
    pub fn with_write_modules_directory_env(
        self,
        write_modules_directory_env: Option<String>,
    ) -> (config: PythonConfig)
        ensures
            config == (PythonConfig { write_modules_directory_env, ..self }),
    {
        PythonConfig { write_modules_directory_env, ..self }
    }

    /// Sets `run` and leaves every other field as it is.
    pub fn with_run(self, run: PythonRunMode) -> (config: PythonConfig)
        ensures
            config == (PythonConfig { run, ..self }),
    {
        PythonConfig { run, ..self }
    }
}

} // verus!
