# utilities

Simulation utilities: strongly typed angles, P and PID controllers with a
derivative lowpass filter, shared constants, and an interactive line-plot
window.

- `src/` is the verified library. It holds the per-frame decisions of the plot
  window (`plot::plan_frame`): when the window closes, when a legend is drawn,
  which lines carry a label. Verus proves them against their contracts.
- `app/` is ordinary Rust around it: the angle types, the controllers, the
  lowpass filter and the constants, whose values and arithmetic are all
  floating point, and the eframe/egui_plot window, which runs the frame loop
  and asks `plan_frame` what each frame does.
- `tests/` exercises the verified library.
