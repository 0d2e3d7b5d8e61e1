//! What the command line says about a run.

use vstd::prelude::*;

verus! {

/// The settings of a run.
pub struct Config {
    pub rom_path: String,
    pub boot_rom_path: Option<String>,
    pub debug: bool,
}

impl Config {
    /// Reads the settings off the command line. `args` holds the program
    /// name first, then the path of the ROM image, then, if given, the path of
    /// the boot ROM; anything after that is ignored. `debug` says whether the
    /// debugger was asked for. Without a ROM path there is no configuration.
    pub fn build(args: &Vec<String>, debug: bool) -> (r: Result<Config, &'static str>)
        ensures
            r is Ok <==> args@.len() >= 2,
            r is Err ==> r->Err_0 == "missing rom path",
            r is Ok ==> {
                let config = r->Ok_0;
                &&& config.rom_path == args@[1]
                &&& config.boot_rom_path == (if args@.len() >= 3 {
                    Some(args@[2])
                } else {
                    None
                })
                &&& config.debug == debug
            },
    {
        if args.len() < 2 {
            return Err("missing rom path");
        }
        let rom_path = args[1].clone();
        let boot_rom_path = if args.len() >= 3 {
            Some(args[2].clone())
        } else {
            None
        };
        Ok(Config { rom_path, boot_rom_path, debug })
    }
}

} // verus!
