# ltbox_gui

The decision logic of LTBox, a desktop tool that flashes, roots and
region-converts Lenovo tablets over ADB, Fastboot and Qualcomm EDL, written
in Verus with its contracts proved.

- `src/` — the verified library, one module per concern:
  - the workflows as step machines — the caller performs each action and
    reports its outcome, the library says what comes next and how a run
    stops: `flash_run` (the full firmware flash, gates to writes),
    `writes` (its write phase), `root_run` (rooting's device phase),
    `rescue_run` (Boot Recovery), `country_run` (the per-partition
    country-code rewrite), `simple_runs` (unrooting and the simple flash);
    each comes with its invariant and laws;
  - the decisions they use: `model` (fingerprint tokens, model recovery over
    EDL), `rollback` (component-wise rollback floors, active slot), `flash`
    (pre-EDL gates, fixed-key policy, per-location rollback bypass, TB323FU
    `efisp`), `country` (country-code partitions and the patch-run record),
    `advanced` (the Advanced file work and its refusals), `transfer` (row
    rules and the order of the Flash Partitions pass),
    `device` (connection modes, reboot and EDL-entry routes), `loader`
    (file-name rules), `sysupdate`, `root`, `ui` (what the wizard screens
    enable and show) and `text` (string helpers the others build on).
- `tests/` — the behaviour checks, run against the compiled library.
- `app/` — the drivers that perform the I/O of each workflow (ADB, Fastboot,
  EDL, files, downloads) and feed the outcomes to the step machines. The
  GUI itself (its views) is not here. A few helpers the drivers take as
  parameters (the EDL loader search, TB323FU's overlay builder, the
  manager-app install) belong to the GUI crate and are passed in.
