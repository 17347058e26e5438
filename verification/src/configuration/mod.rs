use vstd::prelude::*;

verus! {

/// What the user asked for: where the installer is put, whether a file that is already
/// there is replaced, and whether the downloaded file's checksum is left untested.
#[derive(Debug)]
pub struct Configuration {
    pub download_path: String,
    pub overwrite: bool,
    pub skip_verification: bool,
}

/// The mathematical content of a [`Configuration`].
pub struct ConfigurationView {
    pub download_path: Seq<char>,
    pub overwrite: bool,
    pub skip_verification: bool,
}

impl View for Configuration {
    type V = ConfigurationView;

    open spec fn view(&self) -> ConfigurationView {
        ConfigurationView {
            download_path: self.download_path@,
            overwrite: self.overwrite,
            skip_verification: self.skip_verification,
        }
    }
}

/// How a flag reads in text.
pub open spec fn flag_text(flag: bool) -> Seq<char> {
    if flag {
        "true"@
    } else {
        "false"@
    }
}

/// The three lines that describe a configuration, each ended by a line feed.
pub open spec fn description(config: ConfigurationView) -> Seq<char> {
    "Override: "@ + flag_text(config.overwrite) + "\nSkip Verification: "@ + flag_text(
        config.skip_verification,
    ) + "\nDownload Path: "@ + config.download_path + "\n"@
}

fn flag_str(flag: bool) -> (text: &'static str)
    ensures
        text@ == flag_text(flag),
{
    if flag {
        "true"
    } else {
        "false"
    }
}

impl Configuration {
    /// A configuration with the given directory and flags.
    pub fn new(download_path: String, overwrite: bool, skip_verification: bool) -> (config: Self)
        ensures
            config@ == (ConfigurationView {
                download_path: download_path@,
                overwrite,
                skip_verification,
            }),
    {
        Configuration { download_path, overwrite, skip_verification }
    }

    /// The configuration as text for a person to read.
    pub fn describe(&self) -> (text: String)
        ensures
            text@ == description(self@),
    {
        let mut text = String::from_str("Override: ");
        text.append(flag_str(self.overwrite));
        text.append("\nSkip Verification: ");
        text.append(flag_str(self.skip_verification));
        text.append("\nDownload Path: ");
        text.append(self.download_path.as_str());
        text.append("\n");
        text
    }
}

impl Clone for Configuration {
    fn clone(&self) -> (copy: Self)
        ensures
            copy@ == self@,
    {
        Configuration {
            download_path: self.download_path.clone(),
            overwrite: self.overwrite,
            skip_verification: self.skip_verification,
        }
    }
}

impl Default for Configuration {
    /// The current directory, nothing replaced, the checksum tested.
    fn default() -> (config: Self)
        ensures
            config@ == (ConfigurationView {
                download_path: "./"@,
                overwrite: false,
                skip_verification: false,
            }),
    {
        Configuration {
            download_path: String::from_str("./"),
            overwrite: false,
            skip_verification: false,
        }
    }
}

} // verus!
