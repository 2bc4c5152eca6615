use vstd::prelude::*;

use crate::config::GlobalDefaults;
use crate::config::RawConfig;
use crate::config::ResolveResult;
use crate::config::ResolvedConfiguration;
use crate::format::FormatError;
use crate::format::LineEnding;

verus! {

/// Static identity and capability metadata reported to the host.
pub struct PluginInfo {
    pub name: String,
    pub version: String,
    pub config_key: String,
    pub help_url: String,
    pub config_schema_url: String,
    pub update_url: Option<String>,
}

/// The plugin handler the host drives: it resolves a configuration set
/// once, then formats files one call at a time with the resolved
/// configuration.
pub struct StyluaPluginHandler;

impl StyluaPluginHandler {
    /// Resolves raw host configuration; never fails, reporting problems
    /// as diagnostics beside a fully populated configuration.
    pub fn resolve_config(&mut self, raw: RawConfig, global: &GlobalDefaults) -> (r: ResolveResult)
        ensures
            r.config == crate::config::spec_resolved(raw@, *global, crate::config::spec_engine_defaults()),
            crate::config::dview(r.diagnostics@) == crate::config::resolve_diags(raw@),
            r.file_matching.file_extensions@.len() == 1,
            r.file_matching.file_extensions@[0]@ == "lua"@,
            r.file_matching.file_names@.len() == 0,
    {
        crate::config::resolve(raw, global)
    }

    /// Formats one file's bytes with the resolved configuration; returns
    /// no change, the new bytes, or the error for this file alone, exactly
    /// as [`crate::format::spec_format`] prescribes.
    pub fn format(&mut self, file_bytes: &Vec<u8>, config: &ResolvedConfiguration) -> (r: Result<
        Option<Vec<u8>>,
        FormatError,
    >)
        ensures
            match r {
                Ok(change) => match change {
                    Some(bytes) => crate::format::spec_format(file_bytes@, *config) == Ok::<
                        Option<Seq<u8>>,
                        FormatError,
                    >(Some(bytes@)),
                    None => crate::format::spec_format(file_bytes@, *config) == Ok::<
                        Option<Seq<u8>>,
                        FormatError,
                    >(None),
                },
                Err(e) => crate::format::spec_format(file_bytes@, *config) == Err::<
                    Option<Seq<u8>>,
                    FormatError,
                >(e),
            },
    {
        crate::format::format_bytes(file_bytes, config)
    }

    /// Static plugin metadata; no logic.
    pub fn plugin_info(&mut self) -> (r: PluginInfo)
        ensures
            r.name@ == "dprint-plugin-stylua"@,
            r.version@ == "0.1.0"@,
            r.config_key@ == "stylua"@,
            r.help_url@ == "https://github.com/RubixDev/dprint-plugin-stylua#readme"@,
            r.config_schema_url@ == ""@,
            r.update_url matches Some(u) && u@ == "https://plugins.dprint.dev/RubixDev/stylua/latest.json"@,
    {
        PluginInfo {
            name: "dprint-plugin-stylua".to_owned(),
            version: "0.1.0".to_owned(),
            config_key: "stylua".to_owned(),
            help_url: "https://github.com/RubixDev/dprint-plugin-stylua#readme".to_owned(),
            config_schema_url: "".to_owned(),
            update_url: Some("https://plugins.dprint.dev/RubixDev/stylua/latest.json".to_owned()),
        }
    }

    /// The license text shipped with the plugin; static text.
    pub fn license_text(&mut self) -> (r: String)
        ensures
            r@ == "The MIT License (MIT)\n\nCopyright (c) the dprint-plugin-stylua authors\n\nPermission is hereby granted, free of charge, to any person obtaining a copy of this software and associated documentation files (the \"Software\"), to deal in the Software without restriction, including without limitation the rights to use, copy, modify, merge, publish, distribute, sublicense, and/or sell copies of the Software, and to permit persons to whom the Software is furnished to do so, subject to the following conditions:\n\nThe above copyright notice and this permission notice shall be included in all copies or substantial portions of the Software.\n\nTHE SOFTWARE IS PROVIDED \"AS IS\", WITHOUT WARRANTY OF ANY KIND, EXPRESS OR IMPLIED, INCLUDING BUT NOT LIMITED TO THE WARRANTIES OF MERCHANTABILITY, FITNESS FOR A PARTICULAR PURPOSE AND NONINFRINGEMENT. IN NO EVENT SHALL THE AUTHORS OR COPYRIGHT HOLDERS BE LIABLE FOR ANY CLAIM, DAMAGES OR OTHER LIABILITY, WHETHER IN AN ACTION OF CONTRACT, TORT OR OTHERWISE, ARISING FROM, OUT OF OR IN CONNECTION WITH THE SOFTWARE OR THE USE OR OTHER DEALINGS IN THE SOFTWARE.\n"@,
    {
        "The MIT License (MIT)\n\nCopyright (c) the dprint-plugin-stylua authors\n\nPermission is hereby granted, free of charge, to any person obtaining a copy of this software and associated documentation files (the \"Software\"), to deal in the Software without restriction, including without limitation the rights to use, copy, modify, merge, publish, distribute, sublicense, and/or sell copies of the Software, and to permit persons to whom the Software is furnished to do so, subject to the following conditions:\n\nThe above copyright notice and this permission notice shall be included in all copies or substantial portions of the Software.\n\nTHE SOFTWARE IS PROVIDED \"AS IS\", WITHOUT WARRANTY OF ANY KIND, EXPRESS OR IMPLIED, INCLUDING BUT NOT LIMITED TO THE WARRANTIES OF MERCHANTABILITY, FITNESS FOR A PARTICULAR PURPOSE AND NONINFRINGEMENT. IN NO EVENT SHALL THE AUTHORS OR COPYRIGHT HOLDERS BE LIABLE FOR ANY CLAIM, DAMAGES OR OTHER LIABILITY, WHETHER IN AN ACTION OF CONTRACT, TORT OR OTHERWISE, ARISING FROM, OUT OF OR IN CONNECTION WITH THE SOFTWARE OR THE USE OR OTHER DEALINGS IN THE SOFTWARE.\n".to_owned()
    }
}

} // verus!
