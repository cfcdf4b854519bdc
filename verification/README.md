# apxinf_cuda

Facts about CUDA devices, and the choice of the GPU architectures that kernels
are compiled for. The library is verified with Verus.

- `src/arch.rs`: names of architectures, and which CUTLASS needs.
- `src/capability.rs`: compute capabilities, and the architecture that devices share.
- `src/probe.rs`: the program that lists the devices, and the reading of what it prints.
- `src/process.rs`: processes that have ended, and reports of those that failed.
- `src/selection.rs`: the selection, as steps that ask for files to be written and programs to be run.
- `src/selection_laws.rs`: what a whole selection comes to.
- `src/device_caps.rs`: facts about a device, as steps that ask for its attributes and its name.
- `src/text.rs`, `src/standard.rs`: texts, and what is relied on of the standard library.
- `app/`: drives the steps with files, processes and the CUDA driver.
