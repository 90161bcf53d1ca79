# task_fighter

Task Fighter is a desktop task manager: a task list with search, a kanban
board, a graph of the tasks per status and a stop watch. The library also
holds the records of recurring daily, weekly and monthly tasks and the
decisions of their edit forms; the program around it does not show them
yet, since its task store keeps one-off tasks only.

- `src/` is the library, verified with Verus: the task records, the kanban
  board (sorting tasks into columns, moving cards, settling the columns back
  into priorities and statuses, and the laws that no card is lost on the
  way), the option flags, the state of every modal window, the decisions of
  each screen, the polling of background requests, the crash report text
  and the numbers behind the graph and the stop watch.
- `tests/` runs the library on concrete values.
- `app/` is the egui program around it: drawing, input, the panic hook, the
  floating-point transition animation and an in-memory task store.
