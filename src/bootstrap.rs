//! Python source that launch scripts embed to give the front end one merged
//! view of the Jupyter data directories of every environment on the
//! interpreter's module search path.

use vstd::prelude::*;

verus! {

/// Top-level setup code: creates a scratch data directory under the user
/// data location, hard-links every discoverable Jupyter data directory into
/// it (skipping names that already exist), removes it again on SIGINT or
/// SIGTERM, and points `JUPYTER_DATA_DIR` and `JUPYTER_CONFIG_PATH` at the
/// merged directory and the collected config paths.
pub const DATA_DIR_SETUP: &'static str = r#"
import tempfile
import signal
from pathlib import Path
import os
import sys

from platformdirs import user_data_dir

juv_data_dir = Path(user_data_dir("juv"))
juv_data_dir.mkdir(parents=True, exist_ok=True)

temp_dir = tempfile.TemporaryDirectory(dir=juv_data_dir)
merged_dir = Path(temp_dir.name)

def handle_termination(signum, frame):
    temp_dir.cleanup()
    sys.exit(0)

signal.signal(signal.SIGTERM, handle_termination)
signal.signal(signal.SIGINT, handle_termination)

config_paths = []
root_data_dir = Path(sys.prefix) / "share" / "jupyter"
jupyter_paths = [root_data_dir]
for path in map(Path, sys.path):
    if not path.name == "site-packages":
        continue
    venv_path = path.parent.parent.parent
    config_paths.append(venv_path / "etc" / "jupyter")
    data_dir = venv_path / "share" / "jupyter"
    if not data_dir.exists() or str(data_dir) == str(root_data_dir):
        continue

    jupyter_paths.append(data_dir)


for path in reversed(jupyter_paths):
    for item in path.rglob('*'):
        if item.is_file():
            dest = merged_dir / item.relative_to(path)
            dest.parent.mkdir(parents=True, exist_ok=True)
            try:
                os.link(item, dest)
            except FileExistsError:
                pass

os.environ["JUPYTER_DATA_DIR"] = str(merged_dir)
os.environ["JUPYTER_CONFIG_PATH"] = os.pathsep.join(map(str, config_paths))"#;

/// The same setup as [`DATA_DIR_SETUP`], as a function `setup()` that the
/// launch script calls just before starting the front end.
pub const SETUP_FUNCTION: &'static str = r#"import os
import signal
import sys
import tempfile
from pathlib import Path


def setup():
    from platformdirs import user_data_dir

    juv_data_dir = Path(user_data_dir("juv"))
    juv_data_dir.mkdir(parents=True, exist_ok=True)

    temp_dir = tempfile.TemporaryDirectory(dir=juv_data_dir)
    merged_dir = Path(temp_dir.name)

    def handle_termination(signum, frame):
        temp_dir.cleanup()
        sys.exit(0)

    signal.signal(signal.SIGTERM, handle_termination)
    signal.signal(signal.SIGINT, handle_termination)

    config_paths = []
    root_data_dir = Path(sys.prefix) / "share" / "jupyter"
    jupyter_paths = [root_data_dir]
    for path in map(Path, sys.path):
        if not path.name == "site-packages":
            continue
        venv_path = path.parent.parent.parent
        config_paths.append(venv_path / "etc" / "jupyter")
        data_dir = venv_path / "share" / "jupyter"
        if not data_dir.exists() or str(data_dir) == str(root_data_dir):
            continue
        jupyter_paths.append(data_dir)

    for path in reversed(jupyter_paths):
        for item in path.rglob("*"):
            if item.is_file():
                dest = merged_dir / item.relative_to(path)
                dest.parent.mkdir(parents=True, exist_ok=True)
                try:
                    os.link(item, dest)
                except FileExistsError:
                    pass

    os.environ["JUPYTER_DATA_DIR"] = str(merged_dir)
    os.environ["JUPYTER_CONFIG_PATH"] = os.pathsep.join(map(str, config_paths))"#;

} // verus!
